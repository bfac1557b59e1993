//! Participant and account identities.

use vstd::prelude::*;

verus! {

/// A 256-bit public key (an account address), stored as four 64-bit words in
/// little-endian order: `w0` holds bytes 0 through 7 of the key, `w1` bytes 8
/// through 15, and so on.
#[derive(Clone, Copy, Debug, PartialEq, Eq, Structural)]
pub struct Identity {
    pub w0: u64,
    pub w1: u64,
    pub w2: u64,
    pub w3: u64,
}

impl Identity {
    /// The all-zero identity, standing where no participant is bound yet.
    pub open spec fn empty_spec() -> Identity {
        Identity { w0: 0, w1: 0, w2: 0, w3: 0 }
    }

    /// Returns the all-zero identity.
    pub fn empty() -> (r: Identity)
        ensures
            r == Identity::empty_spec(),
    {
        Identity { w0: 0, w1: 0, w2: 0, w3: 0 }
    }
}

impl Default for Identity {
    fn default() -> (r: Identity)
        ensures
            r == Identity::empty_spec(),
    {
        Identity::empty()
    }
}

} // verus!
