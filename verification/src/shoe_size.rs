//! The cubing-delay computation: starting from a public value, every step
//! cubes the state and adds a constant. The execution trace records the
//! state at every step; the first row is the start value and the last row is
//! the claimed result.

use vstd::prelude::*;
use crate::air::{cubing_step, transition_next};
use crate::field::{FieldElement, FIELD_MODULUS};

verus! {

/// The state of the cubing-delay computation after `i` steps from a
/// canonical `start` value.
pub open spec fn cubing_state(start: int, i: nat) -> int
    decreases i,
{
    if i == 0 {
        start
    } else {
        cubing_step(cubing_state(start, (i - 1) as nat))
    }
}

/// The execution trace of `n` steps of the cubing-delay computation: row `i`
/// holds the state after `i` steps.
pub open spec fn cubing_trace(start: int, n: nat) -> Seq<int> {
    Seq::new(n, |i: int| cubing_state(start, i as nat))
}

/// Marker for the cubing-delay proof generation flow; the trace construction
/// it rests on is `build_do_work_trace`.
pub struct ShoeSizeProofGenerator;

impl ShoeSizeProofGenerator {
    /// The verified construction step of proof generation: the execution
    /// trace of `n` steps from the start value, reduced into the field, and
    /// the claimed result in the trace's last row. The proving backend
    /// receives exactly this trace and result.
    pub fn build_instance(start: u128, n: usize) -> (r: (Vec<FieldElement>, FieldElement))
        requires
            n >= 1,
        ensures
            r.0@.map_values(|e: FieldElement| e.value as int) == cubing_trace(
                start as int % (FIELD_MODULUS as int),
                n as nat,
            ),
            r.1.value == cubing_state(start as int % (FIELD_MODULUS as int), (n - 1) as nat),
            r.1.inv(),
    {
        let start_elem = FieldElement::new(start);
        let trace = build_do_work_trace(start_elem, n);
        let result = trace[n - 1];
        (trace, result)
    }
}

/// Marker for the cubing-delay proof verification flow; its public inputs
/// are the start value and the claimed result.
pub struct ShoeSizeProofVerifier;

impl ShoeSizeProofVerifier {
    /// Reconstructs the public inputs of a cubing-delay proof from the
    /// out-of-band values: the start value and the claimed result, reduced
    /// into the field.
    pub fn public_inputs(start: u128, result: u128) -> (r: crate::air::PublicInputs)
        ensures
            r.start.value == start as int % (FIELD_MODULUS as int),
            r.result.value == result as int % (FIELD_MODULUS as int),
            r.start.inv(),
            r.result.inv(),
    {
        crate::air::PublicInputs {
            start: FieldElement::new(start),
            result: FieldElement::new(result),
        }
    }

    /// The security floor applied at verification time.
    pub fn min_security_bits() -> (r: u32)
        ensures
            r == crate::air::MIN_CONJECTURED_SECURITY,
    {
        crate::air::MIN_CONJECTURED_SECURITY
    }
}

/// Builds the execution trace of the cubing-delay computation: `n` rows,
/// row 0 equal to `start`, each later row obtained from its predecessor by
/// the cubing step rule. The trace is a function of the inputs alone.
pub fn build_do_work_trace(start: FieldElement, n: usize) -> (trace: Vec<FieldElement>)
    requires
        start.inv(),
        n >= 1,
    ensures
        trace@.len() == n,
        trace@.map_values(|e: FieldElement| e.value as int) == cubing_trace(
            start.value as int,
            n as nat,
        ),
        forall|i: int|
            0 <= i < n ==> (#[trigger] trace@[i]).value == cubing_state(
                start.value as int,
                i as nat,
            ),
        forall|i: int| 0 <= i < n ==> (#[trigger] trace@[i]).inv(),
{
    let mut trace: Vec<FieldElement> = Vec::new();
    trace.push(start);
    let mut i: usize = 1;
    while i < n
        invariant
            1 <= i <= n,
            start.inv(),
            trace@.len() == i,
            forall|j: int| 0 <= j < i ==> (#[trigger] trace@[j]).inv(),
            forall|j: int|
                0 <= j < i ==> (#[trigger] trace@[j]).value == cubing_state(
                    start.value as int,
                    j as nat,
                ),
        decreases n - i,
    {
        let prev = trace[i - 1];
        let next = transition_next(prev);
        trace.push(next);
        i = i + 1;
    }
    proof {
        assert(trace@.map_values(|e: FieldElement| e.value as int) =~= cubing_trace(
            start.value as int,
            n as nat,
        ));
    }
    trace
}

/// Every consecutive pair of cubing-trace rows satisfies the transition
/// rule the descriptor declares: the next row is the cube of the current
/// one plus the step constant, in the field. Together with the boundary
/// rows — the first row is the start value, the last row the claimed
/// result — this is everything the proving backend checks of the trace.
pub proof fn lemma_cubing_trace_satisfies_transition(start: int, n: nat, i: int)
    requires
        0 <= i < n - 1,
    ensures
        cubing_trace(start, n)[i + 1] == cubing_step(cubing_trace(start, n)[i]),
{
}

/// Determinism: the cubing-delay trace is a function of the start value and
/// the step count alone, so any two traces built from the same inputs are
/// identical.
pub proof fn lemma_cubing_trace_deterministic(t1: Seq<int>, t2: Seq<int>, start: int, n: nat)
    requires
        t1 == cubing_trace(start, n),
        t2 == cubing_trace(start, n),
    ensures
        t1 == t2,
{
}

/// The claimed result of an `n`-step cubing-delay run: the value in the last
/// trace row, i.e. the state after `n - 1` steps.
pub fn do_work(start: FieldElement, n: usize) -> (result: FieldElement)
    requires
        start.inv(),
        n >= 1,
    ensures
        result.value == cubing_state(start.value as int, (n - 1) as nat),
        result.inv(),
{
    let mut result = start;
    let mut i: usize = 1;
    while i < n
        invariant
            1 <= i <= n,
            start.inv(),
            result.inv(),
            result.value == cubing_state(start.value as int, (i - 1) as nat),
        decreases n - i,
    {
        result = transition_next(result);
        i = i + 1;
    }
    result
}

} // verus!
