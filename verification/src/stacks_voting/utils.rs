//! Padding of transaction histories: the backend's polynomial encoding
//! needs a power-of-two number of steps, so a history is extended with
//! deterministic zero-delta filler records that provably leave the computed
//! balance unchanged.

use vstd::prelude::*;
use vstd::string::StringExecFns;
use crate::stacks::utils::{Transaction, TransactionDetails};

verus! {

/// The largest transaction count the proof subsystem accepts; untrusted
/// input beyond it is rejected rather than worked on.
pub const MAX_TRANSACTIONS: usize = 1048576;

/// The smallest power of two that is at least `n` (and at least one).
pub open spec fn spec_next_pow2(n: nat) -> nat
    decreases n,
{
    if n <= 1 {
        1
    } else {
        2 * spec_next_pow2(((n + 1) / 2) as nat)
    }
}

/// Whether `n` is a power of two.
pub open spec fn is_pow2(n: nat) -> bool
    decreases n,
{
    if n == 0 {
        false
    } else if n == 1 {
        true
    } else {
        n % 2 == 0 && is_pow2(n / 2)
    }
}

/// `spec_next_pow2(n)` is at least `n` and, for positive `n`, below `2 * n`.
pub proof fn lemma_next_pow2_bounds(n: nat)
    ensures
        spec_next_pow2(n) >= n,
        spec_next_pow2(n) >= 1,
        n >= 1 ==> spec_next_pow2(n) < 2 * n,
    decreases n,
{
    if n >= 2 {
        let m = ((n + 1) / 2) as nat;
        lemma_next_pow2_bounds(m);
        if n % 2 == 1 && m >= 2 {
            // An odd count cannot equal the doubled value the half yields.
            assert(spec_next_pow2(m) == 2 * spec_next_pow2(((m + 1) / 2) as nat));
        }
    }
}

/// `spec_next_pow2(n)` is a power of two.
pub proof fn lemma_next_pow2_is_pow2(n: nat)
    ensures
        is_pow2(spec_next_pow2(n)),
    decreases n,
{
    if n <= 1 {
    } else {
        let m = ((n + 1) / 2) as nat;
        lemma_next_pow2_is_pow2(m);
        lemma_next_pow2_bounds(m);
        let p = spec_next_pow2(m);
        assert((2 * p) % 2 == 0);
        assert((2 * p) / 2 == p);
    }
}

/// No power of two below `spec_next_pow2(n)` reaches `n`: the function
/// yields the smallest power of two at or above its argument.
pub proof fn lemma_next_pow2_minimal(n: nat, q: nat)
    requires
        is_pow2(q),
        q >= n,
    ensures
        q >= spec_next_pow2(n),
    decreases n,
{
    if n <= 1 {
        assert(q >= 1);
    } else {
        let m = ((n + 1) / 2) as nat;
        assert(q >= 2);
        assert(q % 2 == 0 && is_pow2(q / 2));
        assert(q / 2 >= m);
        lemma_next_pow2_minimal(m, (q / 2) as nat);
    }
}

/// Computes the smallest power of two at or above `n`.
pub fn next_power_of_two(n: usize) -> (r: usize)
    requires
        n <= MAX_TRANSACTIONS + 1,
    ensures
        r == spec_next_pow2(n as nat),
        n >= 1 ==> n <= r < 2 * n,
        r >= 1,
    decreases n,
{
    proof {
        lemma_next_pow2_bounds(n as nat);
    }
    if n <= 1 {
        1
    } else {
        let half = (n + 1) / 2;
        let p = next_power_of_two(half);
        2 * p
    }
}

/// A record is a zero-delta filler when both of its amounts denote zero:
/// folding it into a balance cannot change the balance.
pub open spec fn zero_delta(tx: Transaction) -> bool {
    &&& crate::codec::is_dec_string(tx.stx_sent@)
    &&& crate::codec::dec_value(tx.stx_sent@) == 0
    &&& crate::codec::is_dec_string(tx.stx_received@)
    &&& crate::codec::dec_value(tx.stx_received@) == 0
}

/// The one deterministic filler record, field by field: literal zero amount
/// texts, zero heights, indices and nonce, and sentinel identifiers.
pub open spec fn is_filler_record(tx: Transaction) -> bool {
    &&& tx.stx_sent@ == "0"@
    &&& tx.stx_received@ == "0"@
    &&& tx.tx.tx_id@ == "0"@
    &&& tx.tx.nonce == 0
    &&& tx.tx.block_height == 0
    &&& tx.tx.burn_block_height == 0
    &&& tx.tx.tx_index == 0
    &&& tx.tx.tx_status@ == ""@
    &&& tx.tx.parent_block_hash@ == ""@
    &&& tx.tx.tx_type@ == ""@
}

/// Builds one deterministic filler record: zero amounts and sentinel
/// identifiers.
fn filler_transaction() -> (t: Transaction)
    ensures
        is_filler_record(t),
        zero_delta(t),
{
    proof {
        reveal_strlit("0");
        assert(("0"@).len() == 1);
        assert(("0"@).last() == '0');
        assert(("0"@).drop_last() =~= Seq::<char>::empty());
        assert(crate::codec::dec_value(Seq::<char>::empty()) == 0);
        assert(crate::codec::dec_value("0"@) == crate::codec::digit_val('0'));
    }
    Transaction {
        stx_received: String::from_str("0"),
        stx_sent: String::from_str("0"),
        tx: TransactionDetails {
            tx_id: String::from_str("0"),
            burn_block_height: 0,
            nonce: 0,
            block_height: 0,
            tx_index: 0,
            tx_status: String::from_str(""),
            parent_block_hash: String::from_str(""),
            tx_type: String::from_str(""),
        },
    }
}

/// Extends a transaction history to the next power-of-two length by
/// appending deterministic zero-delta filler records — literal zero amount
/// texts, zero heights and sentinel identifiers. The history's own records
/// are kept, in order, as a prefix.
pub fn pad_to_power_of_two(transactions: Vec<Transaction>) -> (padded: Vec<Transaction>)
    requires
        transactions@.len() <= MAX_TRANSACTIONS,
    ensures
        padded@.len() == spec_next_pow2(transactions@.len()),
        forall|i: int|
            0 <= i < transactions@.len() ==> #[trigger] padded@[i] == transactions@[i],
        forall|i: int|
            transactions@.len() <= i < padded@.len() ==> is_filler_record(#[trigger] padded@[i]),
        forall|i: int|
            transactions@.len() <= i < padded@.len() ==> zero_delta(#[trigger] padded@[i]),
{
    let ghost orig = transactions@;
    let current_length = transactions.len();
    let target = next_power_of_two(current_length);
    let mut padded = transactions;
    while padded.len() < target
        invariant
            current_length == orig.len(),
            current_length <= padded@.len() <= target,
            forall|i: int| 0 <= i < current_length ==> #[trigger] padded@[i] == orig[i],
            forall|i: int|
                current_length <= i < padded@.len() ==> is_filler_record(#[trigger] padded@[i]),
            forall|i: int|
                current_length <= i < padded@.len() ==> zero_delta(#[trigger] padded@[i]),
        decreases target - padded@.len(),
    {
        let filler = filler_transaction();
        padded.push(filler);
    }
    padded
}

} // verus!
