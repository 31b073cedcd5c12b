//! The paging step of transaction-history retrieval. The network fetch
//! itself lives with the transport; each fetched page is folded into the
//! accumulated history here, and the answer says whether another page may
//! follow.

use vstd::prelude::*;
use vstd::string::StringExecFns;
use crate::stacks::utils::Transaction;

verus! {

/// An error raised while retrieving a wallet's transaction history.
#[derive(Debug)]
pub struct TransactionFetchError {
    pub message: String,
}

impl TransactionFetchError {
    /// Wraps a human-readable description of the failure.
    pub fn new(msg: &str) -> (r: Self)
        ensures
            r.message@ == msg@,
    {
        TransactionFetchError { message: String::from_str(msg) }
    }
}

/// Appends one fetched page to the accumulated history, in order, and
/// reports whether paging should continue: only a non-empty page can be
/// followed by another.
pub fn extend_transaction_page(all: &mut Vec<Transaction>, page: Vec<Transaction>) -> (more: bool)
    ensures
        final(all)@ == old(all)@ + page@,
        more == (page@.len() > 0),
{
    let more = page.len() > 0;
    let mut page = page;
    all.append(&mut page);
    more
}

} // verus!
