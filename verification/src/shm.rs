//! The shared data buffer: a byte region, separate from the ring region,
//! that holds bulk I/O payloads. Each party addresses the same bytes
//! through its own mapping; `client_vaddr` is the address the remote side
//! expects to find in a submission entry, and `paddr` is the physical
//! address a hardware-facing server programs into device descriptors.

use vstd::prelude::*;
use crate::error::Error;

verus! {

/// One mapped shared buffer region and the addresses it answers to.
pub struct SharedBufferRegion {
    data: Vec<u8>,
    client_vaddr: u64,
    paddr: u64,
}

impl SharedBufferRegion {
    /// The bytes of the region.
    pub closed spec fn view(self) -> Seq<u8> {
        self.data@
    }

    /// Region size in bytes.
    pub open spec fn size(self) -> nat {
        self.view().len()
    }

    /// The address of the region in the mapping the remote party
    /// dereferences.
    pub closed spec fn client_vaddr(self) -> u64 {
        self.client_vaddr
    }

    /// The physical address of the region, zero when none was supplied.
    pub closed spec fn paddr(self) -> u64 {
        self.paddr
    }

    /// A zero-filled region of `size` bytes under the given addresses.
    pub fn new(size: usize, client_vaddr: u64, paddr: u64) -> (r: SharedBufferRegion)
        ensures
            r.size() == size,
            r.client_vaddr() == client_vaddr,
            r.paddr() == paddr,
            forall|i: int| 0 <= i < size ==> r.view()[i] == 0u8,
    {
        let mut data: Vec<u8> = Vec::new();
        let mut i: usize = 0;
        while i < size
            invariant
                i <= size,
                data@.len() == i as nat,
                forall|j: int| 0 <= j < i ==> data@[j] == 0u8,
            decreases size - i,
        {
            data.push(0u8);
            i = i + 1;
        }
        SharedBufferRegion { data, client_vaddr, paddr }
    }

    /// Runtime size of the region.
    pub fn size_bytes(&self) -> (r: usize)
        ensures
            r as nat == self.size(),
    {
        self.data.len()
    }

    /// The address the remote party expects in a submission entry.
    pub fn client_vaddr_value(&self) -> (r: u64)
        ensures
            r == self.client_vaddr(),
    {
        self.client_vaddr
    }

    /// The physical address of the region.
    pub fn paddr_value(&self) -> (r: u64)
        ensures
            r == self.paddr(),
    {
        self.paddr
    }

    /// One byte of the region.
    pub fn byte_at(&self, i: usize) -> (r: u8)
        requires
            i < self.size(),
        ensures
            r == self.view()[i as int],
    {
        self.data[i]
    }

    /// Copies `bytes` into the region at `offset`. Rejects, writing
    /// nothing, exactly the requests that do not fit inside the region;
    /// there is no silent truncation.
    pub fn write_at(&mut self, offset: usize, bytes: &Vec<u8>) -> (r: Result<(), Error>)
        ensures
            final(self).client_vaddr() == old(self).client_vaddr(),
            final(self).paddr() == old(self).paddr(),
            final(self).size() == old(self).size(),
            offset + bytes@.len() > old(self).size() ==> {
                &&& r == Err::<(), Error>(Error::InvalidArgs)
                &&& *final(self) == *old(self)
            },
            offset + bytes@.len() <= old(self).size() ==> {
                &&& r == Ok::<(), Error>(())
                &&& forall|i: int|
                    offset <= i < offset + bytes@.len() ==> final(self).view()[i] == bytes@[i
                        - offset]
                &&& forall|i: int|
                    0 <= i < old(self).size() && !(offset <= i < offset + bytes@.len())
                        ==> final(self).view()[i] == old(self).view()[i]
            },
    {
        let n: usize = bytes.len();
        if n > self.data.len() || offset > self.data.len() - n {
            return Err(Error::InvalidArgs);
        }
        let total: usize = self.data.len();
        let mut i: usize = 0;
        while i < n
            invariant
                i <= n,
                n == bytes@.len(),
                offset + n <= total,
                total as nat == self.data@.len(),
                self.data@.len() == old(self).size(),
                self.client_vaddr == old(self).client_vaddr(),
                self.paddr == old(self).paddr(),
                forall|k: int| offset <= k < offset + i ==> self.data@[k] == bytes@[k - offset],
                forall|k: int|
                    0 <= k < self.data@.len() && !(offset <= k < offset + i) ==> self.data@[k]
                        == old(self).view()[k],
            decreases n - i,
        {
            let b: u8 = bytes[i];
            self.data.set(offset + i, b);
            i = i + 1;
        }
        Ok(())
    }

    /// Reads `len` bytes starting at `offset`. Rejects exactly the
    /// requests that do not fit inside the region.
    pub fn read_at(&self, offset: usize, len: usize) -> (r: Result<Vec<u8>, Error>)
        ensures
            match r {
                Ok(v) => {
                    &&& offset + len <= self.size()
                    &&& v@ == self.view().subrange(offset as int, offset + len)
                },
                Err(e) => {
                    &&& e == Error::InvalidArgs
                    &&& offset + len > self.size()
                },
            },
    {
        if len > self.data.len() || offset > self.data.len() - len {
            return Err(Error::InvalidArgs);
        }
        let total: usize = self.data.len();
        let mut out: Vec<u8> = Vec::new();
        let mut i: usize = 0;
        while i < len
            invariant
                i <= len,
                offset + len <= total,
                total as nat == self.data@.len(),
                out@.len() == i as nat,
                forall|k: int| 0 <= k < i ==> out@[k] == self.data@[offset + k],
            decreases len - i,
        {
            let b: u8 = self.data[offset + i];
            out.push(b);
            i = i + 1;
        }
        proof {
            assert(out@ =~= self.view().subrange(offset as int, offset + len));
        }
        Ok(out)
    }
}

/// Round-trip payload integrity: any region state reached by a successful
/// write of `bytes` at `offset` hands exactly `bytes` back to a read of
/// the same range.
pub proof fn lemma_round_trip(pre: Seq<u8>, post: Seq<u8>, offset: int, bytes: Seq<u8>)
    requires
        post.len() == pre.len(),
        0 <= offset,
        offset + bytes.len() <= pre.len(),
        forall|i: int| offset <= i < offset + bytes.len() ==> post[i] == bytes[i - offset],
    ensures
        post.subrange(offset, offset + bytes.len()) == bytes,
{
    assert(post.subrange(offset, offset + bytes.len()) =~= bytes);
}

} // verus!
