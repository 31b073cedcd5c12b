//! Ledger-facing data and helpers: the transaction records consumed by the
//! balance computation, address derivation from a public key, and the error
//! types of this part of the system.

use vstd::prelude::*;
use vstd::string::StringExecFns;

pub mod transactions;
pub mod utils;

verus! {

/// An error raised while preparing or generating a proof on the ledger side.
#[derive(Debug)]
pub struct ProofError {
    message: String,
}

impl ProofError {
    /// The description the error carries.
    pub closed spec fn spec_message(&self) -> Seq<char> {
        self.message@
    }

    /// Wraps a human-readable description of the failure.
    pub fn new(msg: &str) -> (r: Self)
        ensures
            r.spec_message() == msg@,
    {
        ProofError { message: String::from_str(msg) }
    }

    /// The human-readable description of the failure.
    pub fn message(&self) -> (r: String)
        ensures
            r@ == self.spec_message(),
    {
        self.message.clone()
    }
}

} // verus!
