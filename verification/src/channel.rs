//! The handshake channel: a fixed-capacity region, written once at session
//! start to publish the loader's transport address to the target. The
//! library models the region's bytes; the operating-system segment that
//! mirrors them is created and filled outside the library.

use vstd::prelude::*;

use crate::enums::LoaderError;

verus! {

/// A fixed-capacity byte region holding at most one encoded handshake
/// message at offset 0. Its storage outlives the session even though it is
/// written only once.
pub struct HandshakeChannel {
    storage: Vec<u8>,
}

impl HandshakeChannel {
    /// The bytes the region currently holds, over its whole capacity.
    pub closed spec fn contents(&self) -> Seq<u8> {
        self.storage@
    }

    /// The region's fixed capacity in bytes.
    pub closed spec fn capacity(&self) -> int {
        self.storage@.len() as int
    }

    /// The region's bytes, to be mirrored into the operating-system
    /// segment.
    pub fn as_bytes(&self) -> (r: &Vec<u8>)
        ensures
            r@ == self.contents(),
    {
        &self.storage
    }

    /// Creates a zero-filled region of the given capacity.
    pub fn create(capacity: usize) -> (c: Self)
        ensures
            c.capacity() == capacity,
            forall|i: int| 0 <= i < capacity ==> c.contents()[i] == 0u8,
    {
        let mut storage: Vec<u8> = Vec::new();
        while storage.len() < capacity
            invariant
                storage@.len() <= capacity,
                forall|i: int| 0 <= i < storage@.len() ==> storage@[i] == 0u8,
            decreases capacity - storage.len(),
        {
            storage.push(0u8);
        }
        HandshakeChannel { storage }
    }

    /// Copies `bytes` into the region at offset 0, leaving the rest of the
    /// region as it was. A payload longer than the capacity is refused whole
    /// with `BufferTooLarge` and the region is untouched.
    pub fn write(&mut self, bytes: &[u8]) -> (r: Result<(), LoaderError>)
        ensures
            bytes@.len() <= old(self).capacity() ==> {
                &&& r == Ok::<(), LoaderError>(())
                &&& final(self).capacity() == old(self).capacity()
                &&& final(self).contents() == bytes@ + old(self).contents().skip(
                    bytes@.len() as int,
                )
            },
            bytes@.len() > old(self).capacity() ==> {
                &&& r == Err::<(), LoaderError>(LoaderError::BufferTooLarge)
                &&& *final(self) == *old(self)
            },
    {
        if bytes.len() > self.storage.len() {
            return Err(LoaderError::BufferTooLarge);
        }
        let mut i: usize = 0;
        while i < bytes.len()
            invariant
                i <= bytes@.len(),
                bytes@.len() <= self.storage@.len(),
                self.storage@.len() == old(self).storage@.len(),
                forall|j: int| 0 <= j < i ==> self.storage@[j] == bytes@[j],
                forall|j: int|
                    i <= j < self.storage@.len() ==> self.storage@[j] == old(self).storage@[j],
            decreases bytes@.len() - i,
        {
            self.storage[i] = bytes[i];
            i = i + 1;
        }
        proof {
            assert(self.storage@ =~= bytes@ + old(self).storage@.skip(bytes@.len() as int));
        }
        Ok(())
    }
}

} // verus!
