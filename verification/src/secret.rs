//! The owned text value built from a validated secret byte run.

use vstd::prelude::*;
use vstd::utf8::valid_utf8;

use crate::zeroize::Zeroize;

verus! {

/// An owned secret text value.
///
/// The value adopts the capacity buffer's storage as it stands: the logical
/// prefix is the validated UTF-8 secret, and the rest of the region is the
/// untouched remainder of the original capacity. Keeping the whole region
/// means no byte is copied on success and erasure can still cover the full
/// declared capacity afterwards.
#[derive(Debug)]
pub struct SecretString {
    bytes: Vec<u8>,
    len: usize,
}

impl SecretString {
    /// The full storage region, byte for byte.
    pub closed spec fn region(&self) -> Seq<u8> {
        self.bytes@
    }

    /// The logical length: how many bytes of text the value holds.
    pub closed spec fn spec_len(&self) -> nat {
        self.len as nat
    }

    /// The declared capacity of the adopted storage.
    pub open spec fn spec_capacity(&self) -> nat {
        self.region().len()
    }

    /// The text itself, as the byte sequence of its UTF-8 encoding.
    pub open spec fn contents(&self) -> Seq<u8> {
        self.region().subrange(0, self.spec_len() as int)
    }

    /// The logical prefix fits the region and is valid UTF-8.
    pub open spec fn wf(&self) -> bool {
        &&& self.spec_len() <= self.spec_capacity()
        &&& valid_utf8(self.contents())
    }

    /// Every byte of the storage region is zero and the logical length is zero.
    pub open spec fn erased(&self) -> bool {
        &&& self.spec_len() == 0
        &&& forall|i: int| 0 <= i < self.region().len() ==> self.region()[i] == 0
    }

    /// Adopt already-validated storage as an owned text value: the first
    /// `len` bytes of `bytes` become the text, without copying.
    pub fn adopt(bytes: Vec<u8>, len: usize) -> (r: SecretString)
        requires
            len <= bytes@.len(),
            valid_utf8(bytes@.subrange(0, len as int)),
        ensures
            r.wf(),
            r.region() == bytes@,
            r.spec_len() == len,
    {
        SecretString { bytes, len }
    }

    /// The byte length of the text.
    pub fn len(&self) -> (r: usize)
        ensures
            r == self.spec_len(),
    {
        self.len
    }

    /// The declared capacity of the adopted storage.
    pub fn capacity(&self) -> (r: usize)
        ensures
            r == self.spec_capacity(),
    {
        self.bytes.len()
    }

    /// True when the text is empty.
    pub fn is_empty(&self) -> (r: bool)
        ensures
            r == (self.spec_len() == 0),
    {
        self.len == 0
    }

    /// The byte at the given position of the text.
    pub fn byte_at(&self, i: usize) -> (r: u8)
        requires
            self.wf(),
            i < self.spec_len(),
        ensures
            r == self.contents()[i as int],
    {
        self.bytes[i]
    }

    /// The byte at the given position of the whole storage region, spare
    /// capacity included — this is what an erasure check inspects.
    pub fn storage_byte_at(&self, i: usize) -> (r: u8)
        requires
            i < self.spec_capacity(),
        ensures
            r == self.region()[i as int],
    {
        self.bytes[i]
    }

    /// A copy of the text's bytes.
    pub fn to_bytes(&self) -> (r: Vec<u8>)
        requires
            self.wf(),
        ensures
            r@ == self.contents(),
    {
        let mut out: Vec<u8> = Vec::new();
        let mut i: usize = 0;
        while i < self.len
            invariant
                i <= self.len,
                self.wf(),
                out@.len() == i,
                forall|j: int| 0 <= j < i ==> out@[j] == self.region()[j],
            decreases self.len - i,
        {
            out.push(self.bytes[i]);
            i = i + 1;
        }
        proof {
            assert(out@ =~= self.contents());
        }
        out
    }
}

impl Zeroize for SecretString {
    /// Overwrite every byte of the storage region with zero and reset the
    /// logical length, keeping the capacity itself.
    fn zeroize(&mut self)
        ensures
            final(self).wf(),
            final(self).erased(),
            final(self).spec_capacity() == old(self).spec_capacity(),
    {
        let n = self.bytes.len();
        let mut i: usize = 0;
        while i < n
            invariant
                i <= n,
                self.bytes@.len() == n,
                forall|j: int| 0 <= j < i ==> self.bytes@[j] == 0,
            decreases n - i,
        {
            self.bytes.set(i, 0);
            i = i + 1;
        }
        self.len = 0;
        proof {
            assert(self.contents() =~= Seq::<u8>::empty());
        }
    }
}

} // verus!
