//! The block device client: cached geometry facts, aligned read and write
//! operations over the ring, and the completion matching that pairs each
//! result with its issuer.
//!
//! A data-plane operation is a submission followed by a poll loop: the
//! caller submits, then alternates between claiming the completion here
//! and blocking on the notification endpoint outside this crate.

use vstd::prelude::*;
use crate::caps::Endpoint;
use crate::error::Error;
use crate::protocol::{block, ControlReply, ControlRequest, MsgTag, BLOCK_PROTO, MSG_FLAG_NONE};
use crate::ring::IoRing;
use crate::session::{Session, SessionState};
use crate::shm::SharedBufferRegion;
use crate::transport::{find_matching, remove_first_matching, IoRingClient};

verus! {

/// One client of a block device server.
pub struct BlockClient {
    session: Session,
    transport: IoRingClient,
    block_size: u32,
    total_sectors: u64,
}

impl BlockClient {
    /// The session under this client.
    pub closed spec fn session(self) -> Session {
        self.session
    }

    /// The ring transport under this client.
    pub closed spec fn transport(self) -> IoRingClient {
        self.transport
    }

    /// Cached block size in bytes; zero until `init` succeeds.
    pub closed spec fn block_size(self) -> u32 {
        self.block_size
    }

    /// Cached device capacity in sectors; zero until `init` succeeds.
    pub closed spec fn total_sectors(self) -> u64 {
        self.total_sectors
    }

    /// The session is sound.
    pub open spec fn wf(self) -> bool {
        self.session().wf()
    }

    /// Whether an aligned byte range is a legal request against the
    /// cached block size: the size is known, and offset and length are
    /// both multiples of it.
    pub open spec fn range_aligned(self, offset: u64, len: u32) -> bool {
        &&& self.block_size() != 0
        &&& offset % (self.block_size() as u64) == 0
        &&& len % self.block_size() == 0
    }

    /// A fresh client over the given control endpoint, with nothing
    /// cached and nothing outstanding.
    pub fn new(endpoint: Endpoint) -> (r: BlockClient)
        ensures
            r.wf(),
            r.session().state() == SessionState::Uninitialized,
            r.session().control() == endpoint,
            r.block_size() == 0,
            r.total_sectors() == 0,
            r.transport().parked() == Seq::<crate::ring::Cqe>::empty(),
    {
        BlockClient {
            session: Session::new(endpoint, BLOCK_PROTO),
            transport: IoRingClient::new(),
            block_size: 0,
            total_sectors: 0,
        }
    }

    /// Borrow of the session, for the handshake calls.
    pub fn session_mut(&mut self) -> (r: &mut Session)
        ensures
            *r == old(self).session(),
            final(self).session() == *final(r),
            final(self).transport() == old(self).transport(),
            final(self).block_size() == old(self).block_size(),
            final(self).total_sectors() == old(self).total_sectors(),
    {
        &mut self.session
    }

    /// Wires the endpoint the caller should signal after a submission,
    /// as the ring transport is attached to this client.
    pub fn set_server_notify(&mut self, endpoint: Endpoint)
        ensures
            final(self).session() == old(self).session(),
            final(self).block_size() == old(self).block_size(),
            final(self).total_sectors() == old(self).total_sectors(),
            final(self).transport().server_notify() == Some(endpoint),
            final(self).transport().parked() == old(self).transport().parked(),
    {
        self.transport.set_server_notify(endpoint);
    }

    /// The endpoint to signal after a submission, if one was wired.
    pub fn server_notify_endpoint(&self) -> (r: Option<Endpoint>)
        ensures
            r == self.transport().server_notify(),
    {
        self.transport.notify_endpoint()
    }

    /// The control request asking for the block size.
    pub fn block_size_request(&self) -> (r: ControlRequest)
        ensures
            r.tag == (MsgTag {
                protocol: BLOCK_PROTO,
                opcode: block::GET_BLOCK_SIZE,
                flags: MSG_FLAG_NONE,
            }),
            r.cap_transfer == None::<u64>,
            r.recv_window == None::<u64>,
    {
        ControlRequest {
            tag: MsgTag::new(BLOCK_PROTO, block::GET_BLOCK_SIZE, MSG_FLAG_NONE),
            mrs: crate::protocol::empty_mrs(),
            buffer: Vec::new(),
            cap_transfer: None,
            recv_window: None,
        }
    }

    /// The control request asking for the capacity in sectors.
    pub fn capacity_request(&self) -> (r: ControlRequest)
        ensures
            r.tag == (MsgTag {
                protocol: BLOCK_PROTO,
                opcode: block::GET_CAPACITY,
                flags: MSG_FLAG_NONE,
            }),
            r.cap_transfer == None::<u64>,
            r.recv_window == None::<u64>,
    {
        ControlRequest {
            tag: MsgTag::new(BLOCK_PROTO, block::GET_CAPACITY, MSG_FLAG_NONE),
            mrs: crate::protocol::empty_mrs(),
            buffer: Vec::new(),
            cap_transfer: None,
            recv_window: None,
        }
    }

    /// Caches the two geometry facts from their replies, in the order the
    /// calls were made: a rejected block-size reply caches nothing; a
    /// rejected capacity reply still leaves the block size cached.
    pub fn init(&mut self, block_size_reply: &ControlReply, capacity_reply: &ControlReply) -> (r:
        Result<(), Error>)
        requires
            old(self).wf(),
        ensures
            final(self).wf(),
            final(self).session() == old(self).session(),
            final(self).transport() == old(self).transport(),
            !block_size_reply.ok ==> {
                &&& r == Err::<(), Error>(Error::Generic)
                &&& *final(self) == *old(self)
            },
            block_size_reply.ok && !capacity_reply.ok ==> {
                &&& r == Err::<(), Error>(Error::Generic)
                &&& final(self).block_size() == block_size_reply.mrs[0] as u32
                &&& final(self).total_sectors() == old(self).total_sectors()
            },
            block_size_reply.ok && capacity_reply.ok ==> {
                &&& r == Ok::<(), Error>(())
                &&& final(self).block_size() == block_size_reply.mrs[0] as u32
                &&& final(self).total_sectors() == capacity_reply.mrs[0]
            },
    {
        if !block_size_reply.ok {
            return Err(Error::Generic);
        }
        self.block_size = block_size_reply.mrs[0] as u32;
        if !capacity_reply.ok {
            return Err(Error::Generic);
        }
        self.total_sectors = capacity_reply.mrs[0];
        Ok(())
    }

    /// Cached block size in bytes.
    pub fn block_size_value(&self) -> (r: u32)
        ensures
            r == self.block_size(),
    {
        self.block_size
    }

    /// Cached capacity in sectors.
    pub fn total_sectors_value(&self) -> (r: u64)
        ensures
            r == self.total_sectors(),
    {
        self.total_sectors
    }

    /// The control endpoint of this client.
    pub fn endpoint(&self) -> (r: Endpoint)
        ensures
            r == self.session().control(),
    {
        self.session.control_endpoint()
    }

    /// Validates and submits one aligned read whose payload lands at
    /// `shm_vaddr` inside the shared buffer, an address the caller already
    /// expressed in the server's mapping. Returns the correlation id to
    /// poll for. Rejects before anything is submitted: a session that is
    /// not active, then a misaligned range.
    pub fn begin_read_shm(
        &mut self,
        ring: &mut IoRing,
        offset: u64,
        len: u32,
        shm_vaddr: u64,
    ) -> (r: Result<u64, Error>)
        requires
            old(self).wf(),
            old(self).session().ids().next_id() < u64::MAX,
            old(ring).wf(),
            old(ring).sq().producer_index() < u64::MAX,
        ensures
            final(self).wf(),
            final(ring).wf(),
            final(ring).cq() == old(ring).cq(),
            final(self).transport() == old(self).transport(),
            final(self).block_size() == old(self).block_size(),
            final(self).total_sectors() == old(self).total_sectors(),
            old(self).session().state() != SessionState::Active ==> {
                &&& r == Err::<u64, Error>(Error::NotInitialized)
                &&& *final(self) == *old(self)
                &&& *final(ring) == *old(ring)
            },
            old(self).session().state() == SessionState::Active && !old(self).range_aligned(
                offset,
                len,
            ) ==> {
                &&& r == Err::<u64, Error>(Error::InvalidArgs)
                &&& *final(self) == *old(self)
                &&& *final(ring) == *old(ring)
            },
            old(self).session().state() == SessionState::Active && old(self).range_aligned(
                offset,
                len,
            ) && old(ring).sq().is_full() ==> {
                &&& r == Err::<u64, Error>(Error::OutOfMemory)
                &&& *final(ring) == *old(ring)
            },
            old(self).session().state() == SessionState::Active && old(self).range_aligned(
                offset,
                len,
            ) && !old(ring).sq().is_full() ==> {
                &&& r == Ok::<u64, Error>(old(self).session().ids().next_id())
                &&& final(ring).sq().contents() == old(ring).sq().contents().push(
                    crate::protocol::block::sqe_read_spec(
                        offset,
                        shm_vaddr,
                        len,
                        old(self).session().ids().next_id(),
                    ),
                )
            },
    {
        if !self.session.is_active() {
            return Err(Error::NotInitialized);
        }
        if self.block_size == 0 || offset % (self.block_size as u64) != 0 || len % self.block_size
            != 0 {
            return Err(Error::InvalidArgs);
        }
        let id = self.session.fresh_id();
        let sqe = block::sqe_read(offset, shm_vaddr, len, id);
        let submitted = self.transport.submit(ring, sqe);
        match submitted {
            Ok(()) => Ok(id),
            Err(e) => Err(e),
        }
    }

    /// Validates and submits one aligned read of `len` bytes whose
    /// payload lands at the start of the shared buffer. Returns the
    /// correlation id to poll for. Rejects before anything is submitted:
    /// a session that is not active, then a misaligned range, then a
    /// length beyond the shared buffer.
    pub fn begin_read_at(
        &mut self,
        ring: &mut IoRing,
        shm: &SharedBufferRegion,
        offset: u64,
        len: u32,
    ) -> (r: Result<u64, Error>)
        requires
            old(self).wf(),
            old(self).session().ids().next_id() < u64::MAX,
            old(ring).wf(),
            old(ring).sq().producer_index() < u64::MAX,
        ensures
            final(self).wf(),
            final(ring).wf(),
            final(ring).cq() == old(ring).cq(),
            final(self).transport() == old(self).transport(),
            final(self).block_size() == old(self).block_size(),
            final(self).total_sectors() == old(self).total_sectors(),
            old(self).session().state() != SessionState::Active ==> {
                &&& r == Err::<u64, Error>(Error::NotInitialized)
                &&& *final(self) == *old(self)
                &&& *final(ring) == *old(ring)
            },
            old(self).session().state() == SessionState::Active && !old(self).range_aligned(
                offset,
                len,
            ) ==> {
                &&& r == Err::<u64, Error>(Error::InvalidArgs)
                &&& *final(self) == *old(self)
                &&& *final(ring) == *old(ring)
            },
            old(self).session().state() == SessionState::Active && old(self).range_aligned(
                offset,
                len,
            ) && len as nat > shm.size() ==> {
                &&& r == Err::<u64, Error>(Error::InvalidArgs)
                &&& *final(self) == *old(self)
                &&& *final(ring) == *old(ring)
            },
            old(self).session().state() == SessionState::Active && old(self).range_aligned(
                offset,
                len,
            ) && len as nat <= shm.size() && old(ring).sq().is_full() ==> {
                &&& r == Err::<u64, Error>(Error::OutOfMemory)
                &&& *final(ring) == *old(ring)
            },
            old(self).session().state() == SessionState::Active && old(self).range_aligned(
                offset,
                len,
            ) && len as nat <= shm.size() && !old(ring).sq().is_full() ==> {
                &&& r == Ok::<u64, Error>(old(self).session().ids().next_id())
                &&& final(ring).sq().contents() == old(ring).sq().contents().push(
                    crate::protocol::block::sqe_read_spec(
                        offset,
                        shm.client_vaddr(),
                        len,
                        old(self).session().ids().next_id(),
                    ),
                )
            },
    {
        if !self.session.is_active() {
            return Err(Error::NotInitialized);
        }
        if self.block_size == 0 || offset % (self.block_size as u64) != 0 || len % self.block_size
            != 0 {
            return Err(Error::InvalidArgs);
        }
        if len as usize > shm.size_bytes() {
            return Err(Error::InvalidArgs);
        }
        let id = self.session.fresh_id();
        let sqe = block::sqe_read(offset, shm.client_vaddr_value(), len, id);
        let submitted = self.transport.submit(ring, sqe);
        match submitted {
            Ok(()) => Ok(id),
            Err(e) => Err(e),
        }
    }

    /// Validates one aligned write, copies the payload prefix into the
    /// start of the shared buffer, and submits. Returns the correlation
    /// id to poll for. Rejects before anything is copied or submitted: a
    /// session that is not active, then a misaligned range, then a length
    /// beyond the shared buffer.
    pub fn begin_write_at(
        &mut self,
        ring: &mut IoRing,
        shm: &mut SharedBufferRegion,
        offset: u64,
        len: u32,
        buf: &Vec<u8>,
    ) -> (r: Result<u64, Error>)
        requires
            old(self).wf(),
            old(self).session().ids().next_id() < u64::MAX,
            old(ring).wf(),
            old(ring).sq().producer_index() < u64::MAX,
        ensures
            final(self).wf(),
            final(ring).wf(),
            final(ring).cq() == old(ring).cq(),
            final(self).transport() == old(self).transport(),
            final(self).block_size() == old(self).block_size(),
            final(self).total_sectors() == old(self).total_sectors(),
            final(shm).client_vaddr() == old(shm).client_vaddr(),
            final(shm).paddr() == old(shm).paddr(),
            final(shm).size() == old(shm).size(),
            old(self).session().state() != SessionState::Active ==> {
                &&& r == Err::<u64, Error>(Error::NotInitialized)
                &&& *final(self) == *old(self)
                &&& *final(ring) == *old(ring)
                &&& *final(shm) == *old(shm)
            },
            old(self).session().state() == SessionState::Active && !old(self).range_aligned(
                offset,
                len,
            ) ==> {
                &&& r == Err::<u64, Error>(Error::InvalidArgs)
                &&& *final(self) == *old(self)
                &&& *final(ring) == *old(ring)
                &&& *final(shm) == *old(shm)
            },
            old(self).session().state() == SessionState::Active && old(self).range_aligned(
                offset,
                len,
            ) && len as nat > old(shm).size() ==> {
                &&& r == Err::<u64, Error>(Error::InvalidArgs)
                &&& *final(self) == *old(self)
                &&& *final(ring) == *old(ring)
                &&& *final(shm) == *old(shm)
            },
            old(self).session().state() == SessionState::Active && old(self).range_aligned(
                offset,
                len,
            ) && len as nat <= old(shm).size() ==> {
                &&& {
                    let copy_len = if (len as nat) <= buf@.len() {
                        len as nat
                    } else {
                        buf@.len()
                    };
                    &&& forall|i: int|
                        0 <= i < copy_len ==> final(shm).view()[i] == buf@[i]
                    &&& forall|i: int|
                        copy_len <= i < old(shm).size() ==> final(shm).view()[i] == old(
                            shm,
                        ).view()[i]
                }
                &&& (old(ring).sq().is_full() ==> r == Err::<u64, Error>(Error::OutOfMemory)
                    && *final(ring) == *old(ring))
                &&& (!old(ring).sq().is_full() ==> {
                    &&& r == Ok::<u64, Error>(old(self).session().ids().next_id())
                    &&& final(ring).sq().contents() == old(ring).sq().contents().push(
                        crate::protocol::block::sqe_write_spec(
                            offset,
                            old(shm).client_vaddr(),
                            len,
                            old(self).session().ids().next_id(),
                        ),
                    )
                })
            },
    {
        if !self.session.is_active() {
            return Err(Error::NotInitialized);
        }
        if self.block_size == 0 || offset % (self.block_size as u64) != 0 || len % self.block_size
            != 0 {
            return Err(Error::InvalidArgs);
        }
        if len as usize > shm.size_bytes() {
            return Err(Error::InvalidArgs);
        }
        let copy_len: usize = if (len as usize) <= buf.len() {
            len as usize
        } else {
            buf.len()
        };
        let mut prefix: Vec<u8> = Vec::new();
        let mut i: usize = 0;
        while i < copy_len
            invariant
                i <= copy_len,
                copy_len <= buf@.len(),
                prefix@.len() == i as nat,
                forall|k: int| 0 <= k < i ==> prefix@[k] == buf@[k],
            decreases copy_len - i,
        {
            let b: u8 = buf[i];
            prefix.push(b);
            i = i + 1;
        }
        let wrote = shm.write_at(0, &prefix);
        proof {
            assert(wrote is Ok);
        }
        let id = self.session.fresh_id();
        let sqe = block::sqe_write(offset, shm.client_vaddr_value(), len, id);
        let submitted = self.transport.submit(ring, sqe);
        match submitted {
            Ok(()) => Ok(id),
            Err(e) => Err(e),
        }
    }

    /// Claims the completion of operation `id`, leaving every other
    /// completion claimable by its own issuer. `Ok(false)`: nothing for
    /// `id` yet, block on the notification endpoint and poll again.
    /// `Ok(true)`: the operation completed with a non-negative result.
    /// `Err(Generic)`: the device reported a negative result.
    pub fn poll_completion(&mut self, ring: &mut IoRing, id: u64) -> (r: Result<bool, Error>)
        requires
            old(self).wf(),
            old(ring).wf(),
        ensures
            final(self).wf(),
            final(ring).wf(),
            final(ring).sq() == old(ring).sq(),
            final(self).session() == old(self).session(),
            final(self).block_size() == old(self).block_size(),
            final(self).total_sectors() == old(self).total_sectors(),
            match find_matching(old(self).transport().outstanding(*old(ring)), id) {
                Some(c) => {
                    &&& (c.res >= 0 ==> r == Ok::<bool, Error>(true))
                    &&& (c.res < 0 ==> r == Err::<bool, Error>(Error::Generic))
                    &&& final(self).transport().outstanding(*final(ring))
                        == remove_first_matching(
                        old(self).transport().outstanding(*old(ring)),
                        id,
                    )
                },
                None => {
                    &&& r == Ok::<bool, Error>(false)
                    &&& final(self).transport().outstanding(*final(ring)) == old(
                        self,
                    ).transport().outstanding(*old(ring))
                },
            },
    {
        let taken = self.transport.take_completion(ring, id);
        match taken {
            None => Ok(false),
            Some(res) => {
                if res < 0 {
                    Err(Error::Generic)
                } else {
                    Ok(true)
                }
            },
        }
    }

    /// Copies the first `len` bytes of the shared buffer into the prefix
    /// of `buf` after a successful read completion; at most `buf.len()`
    /// bytes are copied, and the rest of `buf` keeps its contents.
    pub fn copy_read_payload(
        &self,
        shm: &SharedBufferRegion,
        len: u32,
        buf: &mut Vec<u8>,
    ) -> (copied: usize)
        requires
            len as nat <= shm.size(),
        ensures
            copied as nat == if (len as nat) <= old(buf)@.len() {
                len as nat
            } else {
                old(buf)@.len()
            },
            final(buf)@.len() == old(buf)@.len(),
            forall|i: int| 0 <= i < copied ==> final(buf)@[i] == shm.view()[i],
            forall|i: int| copied <= i < old(buf)@.len() ==> final(buf)@[i] == old(buf)@[i],
    {
        let copy_len: usize = if (len as usize) <= buf.len() {
            len as usize
        } else {
            buf.len()
        };
        let mut i: usize = 0;
        while i < copy_len
            invariant
                i <= copy_len,
                copy_len <= buf@.len(),
                copy_len as nat <= shm.size(),
                buf@.len() == old(buf)@.len(),
                forall|k: int| 0 <= k < i ==> buf@[k] == shm.view()[k],
                forall|k: int| i <= k < old(buf)@.len() ==> buf@[k] == old(buf)@[k],
            decreases copy_len - i,
        {
            let b: u8 = shm.byte_at(i);
            buf.set(i, b);
            i = i + 1;
        }
        copy_len
    }

    /// Validates and submits a whole-sector read: `sector` and `count`
    /// are scaled by the cached block size, rejecting products that do
    /// not fit their types.
    pub fn begin_read_blocks(
        &mut self,
        ring: &mut IoRing,
        shm: &SharedBufferRegion,
        sector: u64,
        count: u32,
    ) -> (r: Result<u64, Error>)
        requires
            old(self).wf(),
            old(self).session().ids().next_id() < u64::MAX,
            old(ring).wf(),
            old(ring).sq().producer_index() < u64::MAX,
        ensures
            final(self).wf(),
            final(ring).wf(),
            final(ring).cq() == old(ring).cq(),
            sector * old(self).block_size() > u64::MAX || count * old(self).block_size()
                > u32::MAX ==> {
                &&& r == Err::<u64, Error>(Error::InvalidArgs)
                &&& *final(self) == *old(self)
                &&& *final(ring) == *old(ring)
            },
            sector * old(self).block_size() <= u64::MAX && count * old(self).block_size()
                <= u32::MAX && old(self).session().state() != SessionState::Active ==> {
                &&& r == Err::<u64, Error>(Error::NotInitialized)
                &&& *final(self) == *old(self)
                &&& *final(ring) == *old(ring)
            },
            sector * old(self).block_size() <= u64::MAX && count * old(self).block_size()
                <= u32::MAX && old(self).session().state() == SessionState::Active && old(
                self,
            ).block_size() != 0 && count * old(self).block_size() <= shm.size() && !old(
                ring,
            ).sq().is_full() ==> {
                &&& r == Ok::<u64, Error>(old(self).session().ids().next_id())
                &&& final(ring).sq().contents() == old(ring).sq().contents().push(
                    crate::protocol::block::sqe_read_spec(
                        (sector * old(self).block_size()) as u64,
                        shm.client_vaddr(),
                        (count * old(self).block_size()) as u32,
                        old(self).session().ids().next_id(),
                    ),
                )
            },
    {
        let bs: u32 = self.block_size;
        let offset_wide: Option<u64> = sector.checked_mul(bs as u64);
        let len_wide: Option<u32> = count.checked_mul(bs);
        match (offset_wide, len_wide) {
            (Some(offset), Some(len)) => {
                proof {
                    if bs != 0 {
                        vstd::arithmetic::div_mod::lemma_mod_multiples_basic(
                            sector as int,
                            bs as int,
                        );
                        vstd::arithmetic::div_mod::lemma_mod_multiples_basic(
                            count as int,
                            bs as int,
                        );
                    }
                }
                self.begin_read_at(ring, shm, offset, len)
            },
            _ => Err(Error::InvalidArgs),
        }
    }

    /// Validates and submits a whole-sector write, scaled like
    /// [`BlockClient::begin_read_blocks`].
    pub fn begin_write_blocks(
        &mut self,
        ring: &mut IoRing,
        shm: &mut SharedBufferRegion,
        sector: u64,
        count: u32,
        buf: &Vec<u8>,
    ) -> (r: Result<u64, Error>)
        requires
            old(self).wf(),
            old(self).session().ids().next_id() < u64::MAX,
            old(ring).wf(),
            old(ring).sq().producer_index() < u64::MAX,
        ensures
            final(self).wf(),
            final(ring).wf(),
            final(ring).cq() == old(ring).cq(),
            sector * old(self).block_size() > u64::MAX || count * old(self).block_size()
                > u32::MAX ==> {
                &&& r == Err::<u64, Error>(Error::InvalidArgs)
                &&& *final(self) == *old(self)
                &&& *final(ring) == *old(ring)
                &&& *final(shm) == *old(shm)
            },
            sector * old(self).block_size() <= u64::MAX && count * old(self).block_size()
                <= u32::MAX && old(self).session().state() != SessionState::Active ==> {
                &&& r == Err::<u64, Error>(Error::NotInitialized)
                &&& *final(self) == *old(self)
                &&& *final(ring) == *old(ring)
                &&& *final(shm) == *old(shm)
            },
            sector * old(self).block_size() <= u64::MAX && count * old(self).block_size()
                <= u32::MAX && old(self).session().state() == SessionState::Active && old(
                self,
            ).block_size() != 0 && count * old(self).block_size() <= old(shm).size() && !old(
                ring,
            ).sq().is_full() ==> {
                &&& r == Ok::<u64, Error>(old(self).session().ids().next_id())
                &&& final(ring).sq().contents() == old(ring).sq().contents().push(
                    crate::protocol::block::sqe_write_spec(
                        (sector * old(self).block_size()) as u64,
                        old(shm).client_vaddr(),
                        (count * old(self).block_size()) as u32,
                        old(self).session().ids().next_id(),
                    ),
                )
                &&& {
                    let copy_len = if (count * old(self).block_size()) <= buf@.len() {
                        count * old(self).block_size()
                    } else {
                        buf@.len() as int
                    };
                    forall|i: int| 0 <= i < copy_len ==> final(shm).view()[i] == buf@[i]
                }
            },
    {
        let bs: u32 = self.block_size;
        let offset_wide: Option<u64> = sector.checked_mul(bs as u64);
        let len_wide: Option<u32> = count.checked_mul(bs);
        match (offset_wide, len_wide) {
            (Some(offset), Some(len)) => {
                proof {
                    if bs != 0 {
                        vstd::arithmetic::div_mod::lemma_mod_multiples_basic(
                            sector as int,
                            bs as int,
                        );
                        vstd::arithmetic::div_mod::lemma_mod_multiples_basic(
                            count as int,
                            bs as int,
                        );
                    }
                }
                self.begin_write_at(ring, shm, offset, len, buf)
            },
            _ => Err(Error::InvalidArgs),
        }
    }
}

} // verus!
