//! Bytes that are not left behind in memory.
use vstd::prelude::*;
use zeroize::Zeroize;

verus! {

/// `<Vec<u8> as zeroize::Zeroize>::zeroize` overwrites the bytes, including what
/// is left of earlier contents in the buffer, and leaves the vector empty.
#[verifier::external_body]
fn erase(bytes: &mut Vec<u8>)
    ensures
        final(bytes)@ == Seq::<u8>::empty(),
    opens_invariants none
    no_unwind
{
    bytes.zeroize();
}

/// Secret bytes, which are overwritten when they are dropped.
pub struct KeyBytes(Vec<u8>);

impl View for KeyBytes {
    type V = Seq<u8>;

    closed spec fn view(&self) -> Seq<u8> {
        self.0@
    }
}

impl KeyBytes {
    pub fn new(bytes: Vec<u8>) -> (k: KeyBytes)
        ensures
            k@ == bytes@,
    {
        KeyBytes(bytes)
    }

    pub fn as_slice(&self) -> (s: &[u8])
        ensures
            s@ == self@,
    {
        self.0.as_slice()
    }

    /// A copy of some bytes.
    pub(crate) fn copy_of(bytes: &[u8]) -> (k: KeyBytes)
        ensures
            k@ == bytes@,
    {
        KeyBytes(vstd::slice::slice_to_vec(bytes))
    }
}

impl Drop for KeyBytes {
    fn drop(&mut self)
        opens_invariants none
        no_unwind
    {
        erase(&mut self.0);
    }
}

pub open spec fn secret_option(k: Option<KeyBytes>) -> Option<Seq<u8>> {
    match k {
        Some(b) => Some(b@),
        None => None,
    }
}

} // verus!
