//! The computation descriptor of the cubing-delay kind — a single-column
//! trace, one transition constraint of algebraic degree three, and two
//! boundary assertions tying the first and last trace row to the public
//! inputs — together with the proof parameters and the verification-time
//! security floor shared by every computation kind.

use vstd::prelude::*;
use crate::field::{fsub, FieldElement, FIELD_MODULUS};

verus! {

/// The additive constant of the cubing step rule.
pub const STEP_CONSTANT: u128 = 42;

/// The algebraic degree declared for the transition constraint.
pub const TRANSITION_DEGREE: usize = 3;

/// The minimum conjectured security, in bits, a proof must offer to be
/// accepted at verification time, independent of the parameters recorded in
/// the proof artifact itself.
pub const MIN_CONJECTURED_SECURITY: u32 = 95;

/// One step of the cubing rule on canonical representatives:
/// `next = current^3 + 42` in the field.
pub open spec fn cubing_step(v: int) -> int {
    (v * v * v + STEP_CONSTANT) % (FIELD_MODULUS as int)
}

/// The proof parameter bundle chosen once per computation kind: query
/// count, blowup factor, grinding factor, field-extension mode, FRI folding
/// factor and FRI maximum remainder degree. The fixed values below target a
/// conjectured security level of at least 96 bits.
#[derive(Clone, Copy, PartialEq, Eq, Structural, Debug)]
pub struct ProofParams {
    pub num_queries: usize,
    pub blowup_factor: usize,
    pub grinding_factor: u32,
    pub extension_field: bool,
    pub fri_folding_factor: usize,
    pub fri_max_remainder_degree: usize,
}

impl ProofParams {
    /// The fixed parameters both computation kinds prove under.
    pub fn standard() -> (r: Self)
        ensures
            r.num_queries == 32,
            r.blowup_factor == 8,
            r.grinding_factor == 0,
            !r.extension_field,
            r.fri_folding_factor == 8,
            r.fri_max_remainder_degree == 31,
    {
        ProofParams {
            num_queries: 32,
            blowup_factor: 8,
            grinding_factor: 0,
            extension_field: false,
            fri_folding_factor: 8,
            fri_max_remainder_degree: 31,
        }
    }
}

/// The public inputs a verifier is given out-of-band: the first and the last
/// value of the execution trace.
#[derive(Clone, Copy, PartialEq, Eq, Structural, Debug)]
pub struct PublicInputs {
    pub start: FieldElement,
    pub result: FieldElement,
}

impl PublicInputs {
    /// The descriptor hands the public inputs to the backend as a flat
    /// sequence of field elements, first value first.
    pub fn to_elements(&self) -> (r: Vec<FieldElement>)
        ensures
            r@ == seq![self.start, self.result],
    {
        let mut v: Vec<FieldElement> = Vec::new();
        v.push(self.start);
        v.push(self.result);
        proof {
            assert(v@ =~= seq![self.start, self.result]);
        }
        v
    }
}

/// A boundary assertion: the trace cell in the given column and step must
/// equal the given value.
#[derive(Clone, Copy, PartialEq, Eq, Structural, Debug)]
pub struct TraceAssertion {
    pub column: usize,
    pub step: usize,
    pub value: FieldElement,
}

/// The descriptor of one computation instance: trace shape, declared
/// constraint degree, declared assertion count, and the public inputs bound
/// into the boundary assertions.
#[derive(Clone, Copy, PartialEq, Eq, Structural, Debug)]
pub struct WorkAir {
    pub trace_length: usize,
    pub start: FieldElement,
    pub result: FieldElement,
    pub num_assertions: usize,
}

impl WorkAir {
    /// A well-formed descriptor declares exactly the two boundary assertions
    /// that `get_assertions` returns, over a non-empty trace.
    pub open spec fn wf(self) -> bool {
        &&& self.trace_length >= 1
        &&& self.num_assertions == 2
        &&& self.start.inv()
        &&& self.result.inv()
    }

    /// Builds the descriptor for a trace of the given shape. The execution
    /// trace of both computation kinds has exactly one column.
    pub fn new(trace_width: usize, trace_length: usize, pub_inputs: PublicInputs) -> (r: Self)
        requires
            trace_width == 1,
            trace_length >= 1,
            pub_inputs.start.inv(),
            pub_inputs.result.inv(),
        ensures
            r.wf(),
            r.trace_length == trace_length,
            r.start == pub_inputs.start,
            r.result == pub_inputs.result,
    {
        WorkAir {
            trace_length,
            start: pub_inputs.start,
            result: pub_inputs.result,
            num_assertions: 2,
        }
    }

    /// Evaluates the transition constraint on a pair of consecutive rows:
    /// the actual next state minus the state the cubing rule prescribes.
    /// The constraint evaluates to zero exactly when the transition is valid.
    pub fn evaluate_transition(&self, current: FieldElement, next: FieldElement) -> (r: FieldElement)
        requires
            current.inv(),
            next.inv(),
        ensures
            r.value == fsub(next.value as int, cubing_step(current.value as int)),
            r.value == 0 <==> next.value == cubing_step(current.value as int),
    {
        let expected = transition_next(current);
        let r = next.sub(expected);
        proof {
            lemma_canonical_difference_zero(next.value as int, expected.value as int);
        }
        r
    }

    /// The declared algebraic degrees of the transition constraints: a single
    /// constraint of degree three.
    pub fn transition_constraint_degrees(&self) -> (r: Vec<usize>)
        ensures
            r@ == seq![TRANSITION_DEGREE],
    {
        let mut v: Vec<usize> = Vec::new();
        v.push(TRANSITION_DEGREE);
        proof {
            assert(v@ =~= seq![TRANSITION_DEGREE]);
        }
        v
    }

    /// The boundary assertions tying the trace to the public inputs: row 0
    /// equals the start value and the last row equals the result value.
    /// Their number always equals the count declared at construction.
    pub fn get_assertions(&self) -> (r: Vec<TraceAssertion>)
        requires
            self.wf(),
        ensures
            r@.len() == self.num_assertions,
            r@[0] == (TraceAssertion { column: 0, step: 0, value: self.start }),
            r@[1] == (TraceAssertion {
                column: 0,
                step: (self.trace_length - 1) as usize,
                value: self.result,
            }),
    {
        let last_step = self.trace_length - 1;
        let mut v: Vec<TraceAssertion> = Vec::new();
        v.push(TraceAssertion { column: 0, step: 0, value: self.start });
        v.push(TraceAssertion { column: 0, step: last_step, value: self.result });
        v
    }
}

/// The public inputs a prover binds into a proof: the first and the last
/// row of the execution trace it is about to prove.
pub fn trace_public_inputs(trace: &Vec<FieldElement>) -> (r: PublicInputs)
    requires
        trace@.len() >= 1,
        forall|i: int| 0 <= i < trace@.len() ==> (#[trigger] trace@[i]).inv(),
    ensures
        r.start == trace@[0],
        r.result == trace@[trace@.len() - 1],
        r.start.inv(),
        r.result.inv(),
{
    let last_step = trace.len() - 1;
    PublicInputs { start: trace[0], result: trace[last_step] }
}

/// The state the cubing rule prescribes after `current`.
pub fn transition_next(current: FieldElement) -> (r: FieldElement)
    requires
        current.inv(),
    ensures
        r.value == cubing_step(current.value as int),
        r.inv(),
{
    let v = current.value;
    let squared = current.mul(current);
    let cubed = squared.mul(current);
    let r = cubed.add(FieldElement::new(STEP_CONSTANT));
    proof {
        let m = FIELD_MODULUS as int;
        vstd::arithmetic::div_mod::lemma_mul_mod_noop_left(v * v, v as int, m);
        assert(cubed.value == (v * v * v) % m);
        vstd::arithmetic::div_mod::lemma_small_mod(STEP_CONSTANT as nat, FIELD_MODULUS as nat);
        vstd::arithmetic::div_mod::lemma_add_mod_noop(v * v * v, STEP_CONSTANT as int, m);
    }
    r
}

/// For canonical representatives, the field difference is zero exactly when
/// the two values are equal.
pub proof fn lemma_canonical_difference_zero(a: int, b: int)
    requires
        0 <= a < FIELD_MODULUS,
        0 <= b < FIELD_MODULUS,
    ensures
        fsub(a, b) == 0 <==> a == b,
{
    if a >= b {
        vstd::arithmetic::div_mod::lemma_small_mod((a - b) as nat, FIELD_MODULUS as nat);
    } else {
        vstd::arithmetic::div_mod::lemma_mod_sub_multiples_vanish(
            a - b + FIELD_MODULUS,
            FIELD_MODULUS as int,
        );
        vstd::arithmetic::div_mod::lemma_small_mod(
            (a - b + FIELD_MODULUS) as nat,
            FIELD_MODULUS as nat,
        );
    }
}

} // verus!
