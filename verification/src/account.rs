use vstd::prelude::*;

verus! {

/// An opaque, fixed-size (256-bit) identifier naming a caller in the host
/// environment.
///
/// The contract never interprets the identifier's internal structure: an
/// identity is only compared for equality and used as the ledger key. The
/// words are public so that a host shell can map its own account
/// representation onto this one.
#[derive(Clone, Copy, PartialEq, Eq, Structural, Debug)]
pub struct AccountId {
    pub w0: u64,
    pub w1: u64,
    pub w2: u64,
    pub w3: u64,
}

impl AccountId {
    /// A convenience constructor for identities that differ in one word.
    pub fn from_u64(w: u64) -> (r: AccountId)
        ensures
            r == (AccountId { w0: w, w1: 0u64, w2: 0u64, w3: 0u64 }),
    {
        AccountId { w0: w, w1: 0u64, w2: 0u64, w3: 0u64 }
    }
}

} // verus!
