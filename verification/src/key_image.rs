//! The 32-byte tag that records are stored under.

use vstd::prelude::*;

verus! {

/// Number of bytes in a key image.
pub const KEY_SIZE: usize = 32;

/// Whether every byte of `bytes` is zero.
pub open spec fn all_zero(bytes: Seq<u8>) -> bool {
    forall|i: int| 0 <= i < bytes.len() ==> bytes[i] == 0
}

/// A key image: an opaque 32-byte value, used only as a lookup key.
#[derive(Clone, Copy, Debug)]
pub struct KeyImage {
    bytes: [u8; 32],
}

impl View for KeyImage {
    type V = Seq<u8>;

    closed spec fn view(&self) -> Seq<u8> {
        self.bytes@
    }
}

impl KeyImage {
    /// The key image made of the given bytes.
    pub fn new(bytes: [u8; 32]) -> (key_image: Self)
        ensures
            key_image@ == bytes@,
    {
        KeyImage { bytes }
    }

    /// The bytes of this key image.
    pub fn as_bytes(&self) -> (bytes: &[u8; 32])
        ensures
            bytes@ == self@,
    {
        &self.bytes
    }

    /// A key image always has `KEY_SIZE` bytes.
    pub proof fn lemma_len(self)
        ensures
            self@.len() == KEY_SIZE,
    {
    }
}

} // verus!
