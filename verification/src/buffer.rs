//! The capacity buffer that the external primitive writes into.

use vstd::prelude::*;

use crate::zeroize::Zeroize;

verus! {

/// A byte buffer with a declared capacity and a logical length.
///
/// The whole capacity region is real, writable storage: the primitive fills
/// it in place, and erasure overwrites all of it, not merely the logical
/// prefix. The logical length only marks how much of the region currently
/// counts as content; it starts at zero and never exceeds the capacity.
#[derive(Debug)]
pub struct SecretBuf {
    bytes: Vec<u8>,
    len: usize,
}

impl SecretBuf {
    /// The full capacity region, byte for byte.
    pub closed spec fn region(&self) -> Seq<u8> {
        self.bytes@
    }

    /// The logical length.
    pub closed spec fn spec_len(&self) -> nat {
        self.len as nat
    }

    /// The declared capacity.
    pub open spec fn spec_capacity(&self) -> nat {
        self.region().len()
    }

    /// The logical length never exceeds the capacity.
    pub open spec fn wf(&self) -> bool {
        self.spec_len() <= self.spec_capacity()
    }

    /// The logical content: the prefix of the region up to the logical length.
    pub open spec fn contents(&self) -> Seq<u8> {
        self.region().subrange(0, self.spec_len() as int)
    }

    /// Every byte of the capacity region is zero and the logical length is zero.
    pub open spec fn erased(&self) -> bool {
        &&& self.spec_len() == 0
        &&& forall|i: int| 0 <= i < self.region().len() ==> self.region()[i] == 0
    }

    /// A buffer of the given capacity, zero-filled, with logical length zero.
    pub fn with_capacity(capacity: usize) -> (r: SecretBuf)
        ensures
            r.wf(),
            r.spec_capacity() == capacity,
            r.erased(),
    {
        let mut bytes: Vec<u8> = Vec::new();
        let mut i: usize = 0;
        while i < capacity
            invariant
                i <= capacity,
                bytes@.len() == i,
                forall|j: int| 0 <= j < i ==> bytes@[j] == 0,
            decreases capacity - i,
        {
            bytes.push(0);
            i = i + 1;
        }
        SecretBuf { bytes, len: 0 }
    }

    /// A buffer of capacity zero.
    pub fn empty() -> (r: SecretBuf)
        ensures
            r.wf(),
            r.spec_capacity() == 0,
            r.erased(),
    {
        SecretBuf { bytes: Vec::new(), len: 0 }
    }

    /// The declared capacity.
    pub fn capacity(&self) -> (r: usize)
        ensures
            r == self.spec_capacity(),
    {
        self.bytes.len()
    }

    /// The logical length.
    pub fn len(&self) -> (r: usize)
        ensures
            r == self.spec_len(),
    {
        self.len
    }

    /// The byte at the given position of the capacity region.
    pub fn byte_at(&self, i: usize) -> (r: u8)
        requires
            i < self.spec_capacity(),
        ensures
            r == self.region()[i as int],
    {
        self.bytes[i]
    }

    /// Hand out the raw capacity region so a caller can have the primitive
    /// fill it in place. The vector's length equals the declared capacity.
    pub fn into_vec(self) -> (r: Vec<u8>)
        ensures
            r@ == self.region(),
    {
        self.bytes
    }

    /// Adopt an already-initialized byte vector as a capacity buffer.
    ///
    /// The vector's length becomes the declared capacity; the logical length
    /// starts at zero.
    pub fn from_filled(bytes: Vec<u8>) -> (r: SecretBuf)
        ensures
            r.wf(),
            r.region() == bytes@,
            r.spec_len() == 0,
    {
        SecretBuf { bytes, len: 0 }
    }
}

/// The relation erasure establishes: `post` is `pre` with its whole capacity
/// region overwritten by zero and its logical length reset.
pub open spec fn zeroized_from(post: SecretBuf, pre: SecretBuf) -> bool {
    &&& post.wf()
    &&& post.erased()
    &&& post.spec_capacity() == pre.spec_capacity()
}

impl Zeroize for SecretBuf {
    /// Overwrite every byte of the capacity region with zero and reset the
    /// logical length, keeping the capacity itself.
    fn zeroize(&mut self)
        ensures
            zeroized_from(*final(self), *old(self)),
    {
        let n = self.bytes.len();
        let mut i: usize = 0;
        while i < n
            invariant
                i <= n,
                self.bytes@.len() == n,
                forall|j: int| 0 <= j < i ==> self.bytes@[j] == 0,
            decreases n - i,
        {
            self.bytes.set(i, 0);
            i = i + 1;
        }
        self.len = 0;
    }
}

/// Erasure is idempotent: erasing a buffer a second time leaves exactly the
/// state the first erasure produced, because one erasure already pins the
/// whole region to zero and the logical length to zero.
pub proof fn lemma_zeroize_idempotent(start: SecretBuf, once: SecretBuf, twice: SecretBuf)
    requires
        zeroized_from(once, start),
        zeroized_from(twice, once),
    ensures
        zeroized_from(twice, start),
        twice.region() == once.region(),
        twice.spec_len() == once.spec_len(),
{
    assert(twice.region() =~= once.region());
}

} // verus!
