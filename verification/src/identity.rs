use vstd::prelude::*;

verus! {

/// A 32-byte caller or item identity, held as four 64-bit words.
///
/// The hosting ledger authenticates callers cryptographically before a call
/// reaches this library; the logic here only ever compares identities for
/// equality against a stored `owner` or `renter` field.
#[derive(Clone, Copy, Debug, PartialEq, Eq, Hash, Structural)]
pub struct Identity {
    pub w0: u64,
    pub w1: u64,
    pub w2: u64,
    pub w3: u64,
}

impl Identity {
    /// The all-zero identity, used where a listing has no renter.
    pub open spec fn null_spec() -> Identity {
        Identity { w0: 0, w1: 0, w2: 0, w3: 0 }
    }

    /// Builds the all-zero identity.
    pub fn null() -> (r: Identity)
        ensures
            r == Identity::null_spec(),
    {
        Identity { w0: 0, w1: 0, w2: 0, w3: 0 }
    }
}

} // verus!
