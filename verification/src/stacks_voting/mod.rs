//! The balance-evolution computation: starting from a wallet's balance at a
//! given height, each step folds one historical transaction's debit and
//! credit into the running balance. The execution trace holds two columns:
//! the balance after every prefix of the history, and the net delta each
//! step applies, so that consecutive rows satisfy the transition rule
//! `next = current + delta`. Both columns are padded — repeated final
//! balance, zero delta — to the backend's power-of-two trace length.

use vstd::prelude::*;
use crate::codec::{dec_value, is_dec_string};
use crate::field::{FieldElement, FIELD_MODULUS};
use crate::stacks::utils::Transaction;
use self::utils::{next_power_of_two, spec_next_pow2, zero_delta, MAX_TRANSACTIONS};

pub mod utils;
pub mod verification;

verus! {

/// The smallest trace length the proving backend accepts.
pub const MIN_TRACE_ROWS: usize = 8;

/// A transaction delta's textual form is usable when it is a decimal
/// numeral whose value fits in 128 bits.
pub open spec fn amount_ok(s: Seq<char>) -> bool {
    is_dec_string(s) && dec_value(s) <= u128::MAX
}

/// Both amounts of a transaction are usable.
pub open spec fn tx_amounts_ok(tx: Transaction) -> bool {
    amount_ok(tx.stx_sent@) && amount_ok(tx.stx_received@)
}

/// The field representative of a transaction amount.
pub open spec fn amount_mod(s: Seq<char>) -> int {
    dec_value(s) % (FIELD_MODULUS as int)
}

/// One step of the balance evolution: the previous balance, minus the
/// transaction's debit, plus its credit, in the field.
pub open spec fn balance_step(balance: int, sent: int, received: int) -> int {
    (balance - sent + received) % (FIELD_MODULUS as int)
}

/// The balance after folding the first `k` transactions of the history into
/// `balance`.
pub open spec fn balance_after(balance: int, txs: Seq<Transaction>, k: int) -> int
    decreases k,
{
    if k <= 0 {
        balance
    } else {
        balance_step(
            balance_after(balance, txs, k - 1),
            amount_mod(txs[k - 1].stx_sent@),
            amount_mod(txs[k - 1].stx_received@),
        )
    }
}

/// The length of the padded execution trace for a history of `count`
/// transactions: the next power of two above the `count + 1` balance rows,
/// but never below the backend's minimum trace length.
pub open spec fn padded_trace_len(count: nat) -> nat {
    if spec_next_pow2(count + 1) >= MIN_TRACE_ROWS {
        spec_next_pow2(count + 1)
    } else {
        MIN_TRACE_ROWS as nat
    }
}

/// The padded execution trace of the balance evolution: row `i` holds the
/// balance after the first `i` transactions, and rows past the history
/// repeat the final balance.
pub open spec fn balance_trace(balance: int, txs: Seq<Transaction>) -> Seq<int> {
    Seq::new(
        padded_trace_len(txs.len()),
        |i: int|
            balance_after(balance, txs, if i <= txs.len() { i } else { txs.len() as int }),
    )
}

/// The net field delta one transaction applies to the balance: its credit
/// minus its debit.
pub open spec fn tx_delta(tx: Transaction) -> int {
    (amount_mod(tx.stx_received@) - amount_mod(tx.stx_sent@)) % (FIELD_MODULUS as int)
}

/// The public delta column bound into the trace beside the balances: the
/// net delta of transaction `i` at row `i`, zero on the padding rows.
pub open spec fn delta_column(txs: Seq<Transaction>) -> Seq<int> {
    Seq::new(
        padded_trace_len(txs.len()),
        |i: int| if i < txs.len() { tx_delta(txs[i]) } else { 0 },
    )
}

/// The signing domain of a structured message.
#[derive(Clone, Debug)]
pub struct Domain {
    pub name: String,
    pub version: String,
    pub chain_id: u32,
}

/// The signed message inputs of a balance-evolution proof request.
#[derive(Clone, Debug)]
pub struct MessageInputs {
    pub message: String,
    pub vote: String,
    pub proposal: String,
    pub balance_at_height: u64,
    pub block_proof_height: u64,
    pub voting_end_height: u64,
}

/// A signed balance-evolution proof request: the message inputs together
/// with the signer's public key and signature material.
#[derive(Clone, Debug)]
pub struct SignatureData {
    pub message_inputs: MessageInputs,
    pub public_key: String,
    pub hash: String,
    pub signature: String,
    pub message: String,
    pub domain: Option<Domain>,
}

/// Why a balance trace could not be built.
#[derive(Clone, Copy, PartialEq, Eq, Structural, Debug)]
pub enum TraceError {
    /// The transaction history exceeds the accepted maximum.
    TooManyTransactions,
    /// The target step count is zero or beyond the padded trace.
    InvalidTargetStep,
    /// A transaction amount is not a decimal numeral that fits in 128 bits.
    MalformedAmount,
}

/// The balance folded through every prefix stays in canonical form.
pub proof fn lemma_balance_after_canonical(balance: int, txs: Seq<Transaction>, k: int)
    requires
        0 <= balance < FIELD_MODULUS,
    ensures
        0 <= balance_after(balance, txs, k) < FIELD_MODULUS,
    decreases (if k > 0 { k } else { 0 }),
{
    if k > 0 {
        lemma_balance_after_canonical(balance, txs, k - 1);
        vstd::arithmetic::div_mod::lemma_mod_bound(
            balance_after(balance, txs, k - 1) - amount_mod(txs[k - 1].stx_sent@) + amount_mod(
                txs[k - 1].stx_received@,
            ),
            FIELD_MODULUS as int,
        );
    }
}

/// Builds the padded execution trace of the balance evolution. Succeeds
/// exactly when the history is within the accepted size, the target step
/// count addresses a row of the padded trace, and every transaction amount
/// parses; each failure is reported as its own error.
pub fn build_do_work_trace(
    balance: FieldElement,
    height: usize,
    transactions: &Vec<Transaction>,
) -> (r: Result<(Vec<FieldElement>, Vec<FieldElement>), TraceError>)
    requires
        balance.inv(),
    ensures
        r is Ok <==> {
            &&& transactions@.len() <= MAX_TRANSACTIONS
            &&& 1 <= height <= padded_trace_len(transactions@.len())
            &&& forall|i: int|
                0 <= i < transactions@.len() ==> tx_amounts_ok(#[trigger] transactions@[i])
        },
        r == Result::<(Vec<FieldElement>, Vec<FieldElement>), TraceError>::Err(
            TraceError::TooManyTransactions,
        ) <==> transactions@.len() > MAX_TRANSACTIONS,
        r == Result::<(Vec<FieldElement>, Vec<FieldElement>), TraceError>::Err(
            TraceError::InvalidTargetStep,
        ) <==> {
            &&& transactions@.len() <= MAX_TRANSACTIONS
            &&& !(1 <= height <= padded_trace_len(transactions@.len()))
        },
        r is Ok ==> {
            &&& r->Ok_0.0@.len() == padded_trace_len(transactions@.len())
            &&& r->Ok_0.0@.map_values(|e: FieldElement| e.value as int) == balance_trace(
                balance.value as int,
                transactions@,
            )
            &&& forall|i: int| 0 <= i < r->Ok_0.0@.len() ==> (#[trigger] r->Ok_0.0@[i]).inv()
            &&& r->Ok_0.1@.map_values(|e: FieldElement| e.value as int) == delta_column(
                transactions@,
            )
            &&& forall|i: int| 0 <= i < r->Ok_0.1@.len() ==> (#[trigger] r->Ok_0.1@[i]).inv()
        },
{
    let count = transactions.len();
    if count > MAX_TRANSACTIONS {
        return Err(TraceError::TooManyTransactions);
    }
    let target_len = next_power_of_two(count + 1);
    let padded_len = if target_len >= MIN_TRACE_ROWS {
        target_len
    } else {
        MIN_TRACE_ROWS
    };
    if height < 1 || height > padded_len {
        return Err(TraceError::InvalidTargetStep);
    }
    let mut rows: Vec<FieldElement> = Vec::new();
    let mut deltas: Vec<FieldElement> = Vec::new();
    rows.push(balance);
    let mut i: usize = 0;
    while i < count
        invariant
            0 <= i <= count,
            count == transactions@.len(),
            count <= MAX_TRANSACTIONS,
            1 <= height <= padded_trace_len(transactions@.len()),
            balance.inv(),
            rows@.len() == i + 1,
            deltas@.len() == i,
            forall|j: int| 0 <= j < i ==> tx_amounts_ok(#[trigger] transactions@[j]),
            forall|j: int| 0 <= j <= i ==> (#[trigger] rows@[j]).inv(),
            forall|j: int|
                0 <= j <= i ==> (#[trigger] rows@[j]).value == balance_after(
                    balance.value as int,
                    transactions@,
                    j,
                ),
            forall|j: int| 0 <= j < i ==> (#[trigger] deltas@[j]).inv(),
            forall|j: int|
                0 <= j < i ==> (#[trigger] deltas@[j]).value == tx_delta(transactions@[j]),
        decreases count - i,
    {
        let tx = &transactions[i];
        let sent_amount = match crate::codec::parse_decimal_u128(tx.stx_sent.as_str()) {
            Some(v) => v,
            None => {
                return Err(TraceError::MalformedAmount);
            },
        };
        let received_amount = match crate::codec::parse_decimal_u128(tx.stx_received.as_str()) {
            Some(v) => v,
            None => {
                return Err(TraceError::MalformedAmount);
            },
        };
        let sent = FieldElement::new(sent_amount);
        let received = FieldElement::new(received_amount);
        let prev = rows[i];
        let next = prev.sub(sent).add(received);
        proof {
            let m = FIELD_MODULUS as int;
            let b = prev.value as int;
            let s = sent.value as int;
            let c = received.value as int;
            vstd::arithmetic::div_mod::lemma_small_mod(received.value as nat, FIELD_MODULUS as nat);
            vstd::arithmetic::div_mod::lemma_add_mod_noop(b - s, c, m);
        }
        rows.push(next);
        deltas.push(received.sub(sent));
        i = i + 1;
    }
    while rows.len() < padded_len
        invariant
            count == transactions@.len(),
            count <= MAX_TRANSACTIONS,
            1 <= height <= padded_trace_len(transactions@.len()),
            padded_len == padded_trace_len(transactions@.len()),
            count + 1 <= rows@.len() <= padded_len,
            forall|j: int| 0 <= j < rows@.len() ==> (#[trigger] rows@[j]).inv(),
            forall|j: int|
                0 <= j < rows@.len() ==> (#[trigger] rows@[j]).value == balance_after(
                    balance.value as int,
                    transactions@,
                    if j <= count { j } else { count as int },
                ),
        decreases padded_len - rows@.len(),
    {
        let last = rows[rows.len() - 1];
        rows.push(last);
    }
    while deltas.len() < padded_len
        invariant
            count == transactions@.len(),
            count <= MAX_TRANSACTIONS,
            1 <= height <= padded_trace_len(transactions@.len()),
            padded_len == padded_trace_len(transactions@.len()),
            count <= deltas@.len() <= padded_len,
            forall|j: int| 0 <= j < deltas@.len() ==> (#[trigger] deltas@[j]).inv(),
            forall|j: int|
                0 <= j < deltas@.len() ==> (#[trigger] deltas@[j]).value == (if j < count {
                    tx_delta(transactions@[j])
                } else {
                    0
                }),
        decreases padded_len - deltas@.len(),
    {
        deltas.push(FieldElement::new(0));
    }
    proof {
        assert(rows@.map_values(|e: FieldElement| e.value as int) =~= balance_trace(
            balance.value as int,
            transactions@,
        ));
        assert(deltas@.map_values(|e: FieldElement| e.value as int) =~= delta_column(
            transactions@,
        ));
    }
    Ok((rows, deltas))
}

/// Marker for the balance-evolution proof generation flow; its verified
/// construction step is `build_instance`.
pub struct StacksVotingProofGenrator;

impl StacksVotingProofGenrator {
    /// The verified construction step of voting-proof generation: builds the
    /// padded balance trace and its public delta column from the signed
    /// message inputs and the fetched history, and reads the claimed result
    /// at the target step. The proving backend receives exactly these
    /// columns and this result.
    pub fn build_instance(
        signature_data: &SignatureData,
        transactions: &Vec<Transaction>,
    ) -> (r: Result<(Vec<FieldElement>, Vec<FieldElement>, FieldElement), TraceError>)
        ensures
            r is Ok <==> {
                &&& transactions@.len() <= MAX_TRANSACTIONS
                &&& 1 <= signature_data.message_inputs.block_proof_height
                    <= padded_trace_len(transactions@.len())
                &&& forall|i: int|
                    0 <= i < transactions@.len() ==> tx_amounts_ok(#[trigger] transactions@[i])
            },
            (r matches Err(e) && e == TraceError::TooManyTransactions) <==> transactions@.len()
                > MAX_TRANSACTIONS,
            (r matches Err(e) && e == TraceError::InvalidTargetStep) <==> {
                &&& transactions@.len() <= MAX_TRANSACTIONS
                &&& !(1 <= signature_data.message_inputs.block_proof_height <= padded_trace_len(
                    transactions@.len(),
                ))
            },
            r is Ok ==> {
                &&& r->Ok_0.0@.map_values(|e: FieldElement| e.value as int) == balance_trace(
                    signature_data.message_inputs.balance_at_height as int,
                    transactions@,
                )
                &&& r->Ok_0.1@.map_values(|e: FieldElement| e.value as int) == delta_column(
                    transactions@,
                )
                &&& r->Ok_0.2.value == balance_trace(
                    signature_data.message_inputs.balance_at_height as int,
                    transactions@,
                )[signature_data.message_inputs.block_proof_height - 1]
                &&& r->Ok_0.2.inv()
            },
    {
        let inputs = &signature_data.message_inputs;
        let balance = FieldElement::new(inputs.balance_at_height as u128);
        proof {
            vstd::arithmetic::div_mod::lemma_small_mod(
                inputs.balance_at_height as nat,
                FIELD_MODULUS as nat,
            );
        }
        let h = inputs.block_proof_height;
        if transactions.len() > MAX_TRANSACTIONS {
            return Err(TraceError::TooManyTransactions);
        }
        if h == 0 || h > (2 * MAX_TRANSACTIONS + 2) as u64 {
            proof {
                utils::lemma_next_pow2_bounds((transactions@.len() + 1) as nat);
            }
            return Err(TraceError::InvalidTargetStep);
        }
        let height: usize = h as usize;
        match build_do_work_trace(balance, height, transactions) {
            Err(e) => Err(e),
            Ok((trace, deltas)) => {
                let result = trace[height - 1];
                Ok((trace, deltas, result))
            },
        }
    }
}

/// Every consecutive pair of trace rows satisfies the balance transition
/// rule with the public delta column: the next balance is the current one
/// plus the step's delta, in the field. This is the constraint the proving
/// backend checks between every two rows.
pub proof fn lemma_trace_satisfies_transition(balance: int, txs: Seq<Transaction>, i: int)
    requires
        0 <= balance < FIELD_MODULUS,
        0 <= i < balance_trace(balance, txs).len() - 1,
    ensures
        balance_trace(balance, txs)[i + 1] == (balance_trace(balance, txs)[i] + delta_column(
            txs,
        )[i]) % (FIELD_MODULUS as int),
{
    let m = FIELD_MODULUS as int;
    let cur = balance_trace(balance, txs)[i];
    lemma_balance_after_canonical(balance, txs, if i <= txs.len() { i } else { txs.len() as int });
    if i < txs.len() {
        let s = amount_mod(txs[i].stx_sent@);
        let c = amount_mod(txs[i].stx_received@);
        assert(balance_trace(balance, txs)[i + 1] == balance_step(cur, s, c));
        vstd::arithmetic::div_mod::lemma_small_mod(cur as nat, FIELD_MODULUS as nat);
        vstd::arithmetic::div_mod::lemma_add_mod_noop(cur, c - s, m);
        assert((cur + (c - s) % m) % m == (cur % m + (c - s) % m) % m);
        assert((cur % m + (c - s) % m) % m == (cur + c - s) % m);
    } else {
        assert(delta_column(txs)[i] == 0);
        assert(balance_trace(balance, txs)[i + 1] == cur);
        vstd::arithmetic::div_mod::lemma_small_mod(cur as nat, FIELD_MODULUS as nat);
    }
}

/// Evaluates the balance transition constraint on a pair of consecutive
/// rows and the step's public delta: the actual next balance minus the
/// balance the step rule prescribes. The constraint evaluates to zero
/// exactly when the transition is valid.
pub fn evaluate_balance_transition(
    current: FieldElement,
    next: FieldElement,
    delta: FieldElement,
) -> (r: FieldElement)
    requires
        current.inv(),
        next.inv(),
        delta.inv(),
    ensures
        r.value == crate::field::fsub(
            next.value as int,
            crate::field::fadd(current.value as int, delta.value as int),
        ),
        r.value == 0 <==> next.value == (current.value + delta.value) % (FIELD_MODULUS as int),
{
    let expected = current.add(delta);
    let r = next.sub(expected);
    proof {
        crate::air::lemma_canonical_difference_zero(next.value as int, expected.value as int);
    }
    r
}

/// Folding a prefix of the history reads nothing past the prefix.
proof fn lemma_balance_after_prefix(
    balance: int,
    txs1: Seq<Transaction>,
    txs2: Seq<Transaction>,
    k: int,
)
    requires
        0 <= k <= txs1.len(),
        k <= txs2.len(),
        forall|i: int| 0 <= i < k ==> txs1[i] == txs2[i],
    ensures
        balance_after(balance, txs1, k) == balance_after(balance, txs2, k),
    decreases k,
{
    if k > 0 {
        lemma_balance_after_prefix(balance, txs1, txs2, k - 1);
    }
}

/// Zero-delta records at the end of the history leave the balance where it
/// is: folding up to `k` gives the same balance as folding only the real
/// records.
proof fn lemma_zero_delta_suffix(balance: int, padded: Seq<Transaction>, cut: int, k: int)
    requires
        0 <= balance < FIELD_MODULUS,
        0 <= cut <= k <= padded.len(),
        forall|i: int| cut <= i < padded.len() ==> zero_delta(#[trigger] padded[i]),
    ensures
        balance_after(balance, padded, k) == balance_after(balance, padded, cut),
    decreases k - cut,
{
    if k > cut {
        lemma_zero_delta_suffix(balance, padded, cut, k - 1);
        let prev = balance_after(balance, padded, k - 1);
        lemma_balance_after_canonical(balance, padded, k - 1);
        assert(amount_mod(padded[k - 1].stx_sent@) == 0) by {
            vstd::arithmetic::div_mod::lemma_small_mod(0, FIELD_MODULUS as nat);
        }
        assert(amount_mod(padded[k - 1].stx_received@) == 0) by {
            vstd::arithmetic::div_mod::lemma_small_mod(0, FIELD_MODULUS as nat);
        }
        assert(balance_after(balance, padded, k) == prev % (FIELD_MODULUS as int));
        vstd::arithmetic::div_mod::lemma_small_mod(prev as nat, FIELD_MODULUS as nat);
    }
}

/// Padding invariant: extending a history with zero-delta filler records —
/// as `utils::pad_to_power_of_two` does — leaves the final balance of the
/// computation unchanged against the unpadded history.
pub proof fn lemma_zero_delta_padding_neutral(
    balance: int,
    txs: Seq<Transaction>,
    padded: Seq<Transaction>,
)
    requires
        0 <= balance < FIELD_MODULUS,
        txs.len() <= padded.len(),
        forall|i: int| 0 <= i < txs.len() ==> padded[i] == txs[i],
        forall|i: int| txs.len() <= i < padded.len() ==> zero_delta(#[trigger] padded[i]),
    ensures
        balance_after(balance, padded, padded.len() as int) == balance_after(
            balance,
            txs,
            txs.len() as int,
        ),
{
    lemma_zero_delta_suffix(balance, padded, txs.len() as int, padded.len() as int);
    lemma_balance_after_prefix(balance, padded, txs, txs.len() as int);
}

/// Padding invariant: for a history whose size is not a power of two, and
/// large enough that the backend's minimum trace length does not bind, the
/// padded trace length is exactly the next power of two above the
/// transaction count.
pub proof fn lemma_padded_len_is_next_pow2(count: nat)
    requires
        count >= 5,
        !utils::is_pow2(count),
    ensures
        padded_trace_len(count) == spec_next_pow2(count),
{
    let a = spec_next_pow2(count);
    let b = spec_next_pow2((count + 1) as nat);
    utils::lemma_next_pow2_is_pow2(count);
    utils::lemma_next_pow2_bounds(count);
    utils::lemma_next_pow2_is_pow2((count + 1) as nat);
    utils::lemma_next_pow2_bounds((count + 1) as nat);
    assert(a != count);
    utils::lemma_next_pow2_minimal((count + 1) as nat, a);
    utils::lemma_next_pow2_minimal(count, b);
    assert(a == b);
    assert(!utils::is_pow2(3));
    assert(!utils::is_pow2(6));
    assert(!utils::is_pow2(7));
    assert(b >= MIN_TRACE_ROWS);
}

/// Boundary case: with an empty transaction history every row of the padded
/// trace — the claimed result included — equals the input balance.
pub proof fn lemma_empty_history_trace(balance: int, txs: Seq<Transaction>)
    requires
        txs.len() == 0,
    ensures
        balance_trace(balance, txs).len() == MIN_TRACE_ROWS,
        forall|i: int|
            0 <= i < balance_trace(balance, txs).len() ==> balance_trace(balance, txs)[i]
                == balance,
{
    assert(spec_next_pow2(1) == 1);
    assert(padded_trace_len(0) == MIN_TRACE_ROWS);
}

/// Determinism: the padded balance trace is a function of the input balance
/// and the transaction history alone, so any two traces built from the same
/// inputs are identical.
pub proof fn lemma_balance_trace_deterministic(
    t1: Seq<int>,
    t2: Seq<int>,
    balance: int,
    txs: Seq<Transaction>,
)
    requires
        t1 == balance_trace(balance, txs),
        t2 == balance_trace(balance, txs),
    ensures
        t1 == t2,
{
}

} // verus!
