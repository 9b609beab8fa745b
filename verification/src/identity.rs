use vstd::prelude::*;

verus! {

/// A 32-byte public identity of a party: a campaign owner, the platform, or a contributor.
#[derive(Clone, Copy, Debug, PartialEq, Eq)]
pub struct Identity {
    pub key: [u8; 32],
}

impl Identity {
    /// The identity with the given key.
    pub fn new(key: [u8; 32]) -> (id: Identity)
        ensures
            id.key == key,
    {
        Identity { key }
    }

    /// Whether two identities denote the same party.
    pub fn same(&self, other: &Identity) -> (r: bool)
        ensures
            r == (*self == *other),
    {
        let mut i: usize = 0;
        while i < 32
            invariant
                i <= 32,
                forall|j: int| 0 <= j < i ==> self.key[j] == other.key[j],
            decreases 32 - i,
        {
            if self.key[i] != other.key[i] {
                return false;
            }
            i += 1;
        }
        assert(self.key =~= other.key);
        true
    }
}

} // verus!
