use vstd::prelude::*;

verus! {

/// The 256-bit identity of an account on the ledger (a depositor, a record
/// or an oracle), held as four 64-bit words, least significant first.
#[derive(Debug, Clone, Copy, PartialEq, Eq, Structural)]
pub struct AccountKey {
    pub w0: u64,
    pub w1: u64,
    pub w2: u64,
    pub w3: u64,
}

impl AccountKey {
    pub fn new(w0: u64, w1: u64, w2: u64, w3: u64) -> (r: AccountKey)
        ensures
            r == (AccountKey { w0, w1, w2, w3 }),
    {
        AccountKey { w0, w1, w2, w3 }
    }

    /// Whether two keys name the same account.
    pub fn same_as(&self, other: &AccountKey) -> (r: bool)
        ensures
            r == (*self == *other),
    {
        *self == *other
    }
}

} // verus!
