//! The outcome of fetching transactions from a remote service.
use vstd::prelude::*;

verus! {

/// Exactly one of three outcomes of a fetch.
#[derive(Debug, Clone, PartialEq)]
pub enum TxnFetch {
    Loaded { txns: Vec<String> },
    Empty,
    Failed { code: u16, message: String },
}

impl TxnFetch {
    /// The outcome's label; the payload is not looked at.
    pub fn describe(&self) -> (r: &'static str)
        ensures
            r@ == (match self {
                TxnFetch::Loaded { .. } => "have_txns"@,
                TxnFetch::Empty => "no_txns"@,
                TxnFetch::Failed { .. } => "error"@,
            }),
    {
        match self {
            TxnFetch::Loaded { .. } => "have_txns",
            TxnFetch::Empty => "no_txns",
            TxnFetch::Failed { .. } => "error",
        }
    }
}

} // verus!
