use vstd::prelude::*;

verus! {

/// A 32-byte account identity (an owner, a vault or a token mint).
#[derive(Debug, Clone, Copy)]
pub struct Key {
    pub bytes: [u8; 32],
}

/// The one token mint that stakes and top-ups accept.
pub const TOKEN_MINT_BYTES: [u8; 32] = [
    190, 80, 133, 238, 92, 229, 195, 129, 77, 86, 128, 235, 114, 177, 113, 33,
    84, 122, 19, 206, 109, 189, 89, 35, 199, 27, 29, 191, 250, 205, 5, 88,
];

/// The accepted token mint as a key.
pub open spec fn token_mint() -> Key {
    Key { bytes: TOKEN_MINT_BYTES }
}

impl View for Key {
    type V = Seq<u8>;

    open spec fn view(&self) -> Seq<u8> {
        self.bytes@
    }
}

impl Key {
    pub fn new(bytes: [u8; 32]) -> (k: Key)
        ensures
            k.bytes == bytes,
    {
        Key { bytes }
    }

    /// The accepted token mint.
    pub fn token_mint() -> (k: Key)
        ensures
            k == token_mint(),
    {
        Key { bytes: TOKEN_MINT_BYTES }
    }

    pub fn to_bytes(&self) -> (b: [u8; 32])
        ensures
            b == self.bytes,
    {
        self.bytes
    }
}

impl PartialEq for Key {
    fn eq(&self, o: &Key) -> (r: bool) {
        let mut i: usize = 0;
        while i < 32
            invariant
                0 <= i <= 32,
                forall|j: int| 0 <= j < i ==> self.bytes@[j] == o.bytes@[j],
            decreases 32 - i,
        {
            if self.bytes[i] != o.bytes[i] {
                return false;
            }
            i = i + 1;
        }
        proof {
            assert(self.bytes@ =~= o.bytes@);
        }
        true
    }
}

impl Eq for Key {}

impl vstd::std_specs::cmp::PartialEqSpecImpl for Key {
    open spec fn obeys_eq_spec() -> bool {
        true
    }

    open spec fn eq_spec(&self, o: &Key) -> bool {
        self@ == o@
    }
}

} // verus!
