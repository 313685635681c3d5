use vstd::prelude::*;

verus! {

/// A 32-byte account identity (a player, a user, a leaderboard or a game).
#[derive(Clone, Copy, Debug)]
pub struct Key {
    pub bytes: [u8; 32],
}

impl Key {
    /// Whether every byte of the key is zero.
    pub open spec fn is_zero(&self) -> bool {
        forall|i: int| 0 <= i < 32 ==> #[trigger] self.bytes[i] == 0u8
    }

    /// The all-zero key, held by ranking slots that no player has filled.
    pub fn zero() -> (r: Key)
        ensures
            r.is_zero(),
    {
        Key { bytes: [0u8; 32] }
    }

    /// Builds a key from its bytes.
    pub fn new(bytes: [u8; 32]) -> (r: Key)
        ensures
            r.bytes == bytes,
    {
        Key { bytes }
    }
}

impl PartialEq for Key {
    fn eq(&self, o: &Key) -> (r: bool) {
        let mut i: usize = 0;
        while i < 32
            invariant
                0 <= i <= 32,
                forall|j: int| 0 <= j < i ==> self.bytes[j] == o.bytes[j],
            decreases 32 - i,
        {
            if self.bytes[i] != o.bytes[i] {
                return false;
            }
            i = i + 1;
        }
        proof {
            assert(self.bytes =~= o.bytes);
        }
        true
    }
}

impl vstd::std_specs::cmp::PartialEqSpecImpl for Key {
    open spec fn obeys_eq_spec() -> bool {
        true
    }

    open spec fn eq_spec(&self, o: &Key) -> bool {
        *self == *o
    }
}

impl Eq for Key {
}

} // verus!
