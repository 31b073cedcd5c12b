//! The verification side of the balance-evolution proof: the public inputs
//! a verifier reconstructs from the out-of-band values, and the security
//! floor it enforces regardless of what a proof artifact claims.

use vstd::prelude::*;
use crate::air::{PublicInputs, MIN_CONJECTURED_SECURITY};
use crate::field::{FieldElement, FIELD_MODULUS};

verus! {

/// Marker for the balance-evolution proof verification flow.
pub struct StacksVotingProofVerifier;

impl StacksVotingProofVerifier {
    /// Reconstructs the public inputs of a balance-evolution proof from the
    /// out-of-band values: the balance at the proof height and the claimed
    /// result, reduced into the field.
    pub fn public_inputs(balance_at_height: u128, claimed_result: u128) -> (r: PublicInputs)
        ensures
            r.start.value == balance_at_height as int % (FIELD_MODULUS as int),
            r.result.value == claimed_result as int % (FIELD_MODULUS as int),
            r.start.inv(),
            r.result.inv(),
    {
        PublicInputs {
            start: FieldElement::new(balance_at_height),
            result: FieldElement::new(claimed_result),
        }
    }

    /// The security floor applied at verification time.
    pub fn min_security_bits() -> (r: u32)
        ensures
            r == MIN_CONJECTURED_SECURITY,
    {
        MIN_CONJECTURED_SECURITY
    }
}

} // verus!
