//! The session handshake: the two-phase synchronous exchange that
//! establishes the ring region and the shared data buffer between one
//! client and one device server, followed by the caching of control-plane
//! facts that makes the session active.
//!
//! The kernel performs each rendezvous call outside this crate; the
//! functions here build the requests from plain values, judge the replies,
//! and advance the state machine. A failed phase aborts the handshake:
//! the session never reaches `Active` and must not be used further.

use vstd::prelude::*;
use crate::caps::{Endpoint, MemoryRegionHandle};
use crate::correlation::CorrelationGenerator;
use crate::error::Error;
use crate::protocol::{ControlRequest, MsgTag, MSG_FLAG_HAS_CAP, MSG_FLAG_NONE};
use crate::ring::{is_pow2, required_region_size};

verus! {

/// Where a session stands in its lifecycle.
#[derive(Clone, Copy, Debug, PartialEq, Eq, Structural)]
pub enum SessionState {
    /// Fresh: no handshake phase has run.
    Uninitialized,
    /// Ring setup succeeded; the ring region is established.
    RingConfigured,
    /// Buffer setup succeeded; the shared data buffer is established.
    BufferConfigured,
    /// Control-plane facts are cached; the session is ready for data-plane
    /// operations.
    Active,
}

/// The reply of the ring setup phase, reduced to plain values: whether the
/// server accepted, the region capability it attached, the entry counts it
/// actually granted (it may clamp), and the size of the granted region.
#[derive(Clone, Copy, Debug)]
pub struct RingSetupReply {
    /// Whether the reply tag carried the success flag.
    pub ok: bool,
    /// The ring region capability, when one arrived.
    pub handle: Option<MemoryRegionHandle>,
    /// Granted submission entry count.
    pub sq_entries: u32,
    /// Granted completion entry count.
    pub cq_entries: u32,
    /// Size in bytes of the granted region.
    pub region_size: u64,
}

/// The reply of the buffer setup phase, reduced to plain values.
#[derive(Clone, Copy, Debug)]
pub struct BufferSetupReply {
    /// Whether the reply tag carried the success flag.
    pub ok: bool,
    /// The buffer region capability, when one arrived.
    pub handle: Option<MemoryRegionHandle>,
    /// Address of the region in the mapping the server dereferences.
    pub vaddr: u64,
    /// Size of the region in bytes.
    pub size: u64,
    /// Physical address of the region; zero for virtual devices.
    pub paddr: u64,
}

/// Bytes of one page; regions are handed out page-aligned.
pub const PAGE_SIZE: u64 = 4096;

/// One client's session with one device server: the control endpoint, the
/// optional wake-up endpoint, the granted ring and buffer geometry, and
/// the correlation-id generator. Created empty; the handshake moves it
/// through `RingConfigured` and `BufferConfigured` to `Active`.
pub struct Session {
    state: SessionState,
    protocol: usize,
    control: Endpoint,
    notify: Option<Endpoint>,
    sq_entries: u32,
    cq_entries: u32,
    buffer_vaddr: u64,
    buffer_size: u64,
    buffer_paddr: u64,
    ids: CorrelationGenerator,
}

impl Session {
    /// Lifecycle position.
    pub closed spec fn state(self) -> SessionState {
        self.state
    }

    /// Protocol id of the device class this session speaks.
    pub closed spec fn protocol(self) -> usize {
        self.protocol
    }

    /// The control endpoint.
    pub closed spec fn control(self) -> Endpoint {
        self.control
    }

    /// The notification endpoint supplied at ring setup, if any.
    pub closed spec fn notify(self) -> Option<Endpoint> {
        self.notify
    }

    /// Granted submission entry count; zero before ring setup.
    pub closed spec fn sq_entries(self) -> u32 {
        self.sq_entries
    }

    /// Granted completion entry count; zero before ring setup.
    pub closed spec fn cq_entries(self) -> u32 {
        self.cq_entries
    }

    /// Server-side address of the shared data buffer.
    pub closed spec fn buffer_vaddr(self) -> u64 {
        self.buffer_vaddr
    }

    /// Size of the shared data buffer; zero before buffer setup.
    pub closed spec fn buffer_size(self) -> u64 {
        self.buffer_size
    }

    /// Physical address of the shared data buffer, zero when none.
    pub closed spec fn buffer_paddr(self) -> u64 {
        self.buffer_paddr
    }

    /// The correlation-id generator.
    pub closed spec fn ids(self) -> CorrelationGenerator {
        self.ids
    }

    /// The generator is sound, and each configured stage carries the
    /// facts its phase validated.
    pub open spec fn wf(self) -> bool {
        &&& self.ids().wf()
        &&& self.state() != SessionState::Uninitialized ==> {
            &&& is_pow2(self.sq_entries() as nat)
            &&& is_pow2(self.cq_entries() as nat)
        }
        &&& (self.state() == SessionState::BufferConfigured || self.state()
            == SessionState::Active) ==> {
            &&& 0 < self.buffer_size()
            &&& self.buffer_size() % PAGE_SIZE == 0
        }
    }

    /// A fresh, empty session over the given control endpoint.
    pub fn new(control: Endpoint, protocol: usize) -> (r: Session)
        ensures
            r.wf(),
            r.state() == SessionState::Uninitialized,
            r.protocol() == protocol,
            r.control() == control,
            r.notify() == None::<Endpoint>,
            r.ids().issued() == Seq::<u64>::empty(),
    {
        Session {
            state: SessionState::Uninitialized,
            protocol,
            control,
            notify: None,
            sq_entries: 0,
            cq_entries: 0,
            buffer_vaddr: 0,
            buffer_size: 0,
            buffer_paddr: 0,
            ids: CorrelationGenerator::new(),
        }
    }

    /// Runtime state read-out.
    pub fn current_state(&self) -> (r: SessionState)
        ensures
            r == self.state(),
    {
        self.state
    }

    /// Whether both handshake phases and the fact caching succeeded.
    pub fn is_active(&self) -> (r: bool)
        ensures
            r == (self.state() == SessionState::Active),
    {
        match self.state {
            SessionState::Active => true,
            _ => false,
        }
    }

    /// The control endpoint, for the caller to address its calls to.
    pub fn control_endpoint(&self) -> (r: Endpoint)
        ensures
            r == self.control(),
    {
        self.control
    }

    /// The notification endpoint recorded at ring setup, if any; a caller
    /// blocks on it while waiting for completions.
    pub fn notify_endpoint(&self) -> (r: Option<Endpoint>)
        ensures
            r == self.notify(),
    {
        self.notify
    }

    /// Granted submission entry count.
    pub fn granted_sq_entries(&self) -> (r: u32)
        ensures
            r == self.sq_entries(),
    {
        self.sq_entries
    }

    /// Granted completion entry count.
    pub fn granted_cq_entries(&self) -> (r: u32)
        ensures
            r == self.cq_entries(),
    {
        self.cq_entries
    }

    /// Builds the ring setup request: the desired entry counts in the
    /// first two registers, the notification endpoint riding along as the
    /// transferred capability, and `recv_slot` designated for the region
    /// capability of the reply. Records the notification endpoint.
    /// Rejects a session past `Uninitialized` and any entry count that is
    /// not a power of two.
    pub fn ring_setup_request(
        &mut self,
        opcode: usize,
        sq_entries: u32,
        cq_entries: u32,
        notify_ep: Endpoint,
        recv_slot: u64,
    ) -> (r: Result<ControlRequest, Error>)
        requires
            old(self).wf(),
        ensures
            final(self).wf(),
            final(self).state() == old(self).state(),
            final(self).protocol() == old(self).protocol(),
            final(self).control() == old(self).control(),
            final(self).ids() == old(self).ids(),
            old(self).state() != SessionState::Uninitialized ==> {
                &&& r is Err && r->Err_0 == Error::InvalidArgs
                &&& *final(self) == *old(self)
            },
            old(self).state() == SessionState::Uninitialized && !(is_pow2(sq_entries as nat)
                && is_pow2(cq_entries as nat)) ==> {
                &&& r is Err && r->Err_0 == Error::InvalidArgs
                &&& *final(self) == *old(self)
            },
            old(self).state() == SessionState::Uninitialized && is_pow2(sq_entries as nat)
                && is_pow2(cq_entries as nat) ==> {
                &&& r is Ok
                &&& final(self).notify() == Some(notify_ep)
                &&& r->Ok_0.tag == (MsgTag {
                    protocol: old(self).protocol(),
                    opcode,
                    flags: MSG_FLAG_HAS_CAP,
                })
                &&& r->Ok_0.mrs[0] == sq_entries as u64
                &&& r->Ok_0.mrs[1] == cq_entries as u64
                &&& r->Ok_0.cap_transfer == Some(notify_ep.cap)
                &&& r->Ok_0.recv_window == Some(recv_slot)
                &&& r->Ok_0.buffer@.len() == 0
            },
    {
        match self.state {
            SessionState::Uninitialized => {},
            _ => {
                return Err(Error::InvalidArgs);
            },
        }
        if !crate::ring::check_pow2(sq_entries) || !crate::ring::check_pow2(cq_entries) {
            return Err(Error::InvalidArgs);
        }
        self.notify = Some(notify_ep);
        let mrs: [u64; 8] = [sq_entries as u64, cq_entries as u64, 0u64, 0u64, 0u64, 0u64, 0u64, 0u64];
        Ok(
            ControlRequest {
                tag: MsgTag::new(self.protocol, opcode, MSG_FLAG_HAS_CAP),
                mrs,
                buffer: Vec::new(),
                cap_transfer: Some(notify_ep.cap),
                recv_window: Some(recv_slot),
            },
        )
    }

    /// Judges the ring setup reply. Success needs the reply accepted, a
    /// region capability present, granted entry counts that are powers of
    /// two, and a region large enough for them; then the session holds
    /// the granted geometry and stands `RingConfigured`. Any shortfall
    /// leaves the session exactly as it was: a rejected or capability-less
    /// reply is the remote's failure (`Generic`), the rest are argument
    /// errors (`InvalidArgs`).
    pub fn apply_ring_setup(&mut self, reply: &RingSetupReply) -> (r: Result<(), Error>)
        requires
            old(self).wf(),
        ensures
            final(self).wf(),
            final(self).protocol() == old(self).protocol(),
            final(self).control() == old(self).control(),
            final(self).notify() == old(self).notify(),
            final(self).ids() == old(self).ids(),
            old(self).state() != SessionState::Uninitialized ==> {
                &&& r == Err::<(), Error>(Error::InvalidArgs)
                &&& *final(self) == *old(self)
            },
            old(self).state() == SessionState::Uninitialized && !(reply.ok
                && reply.handle is Some) ==> {
                &&& r == Err::<(), Error>(Error::Generic)
                &&& *final(self) == *old(self)
            },
            old(self).state() == SessionState::Uninitialized && reply.ok && reply.handle is Some
                && !(is_pow2(reply.sq_entries as nat) && is_pow2(reply.cq_entries as nat)) ==> {
                &&& r == Err::<(), Error>(Error::InvalidArgs)
                &&& *final(self) == *old(self)
            },
            old(self).state() == SessionState::Uninitialized && reply.ok && reply.handle is Some
                && is_pow2(reply.sq_entries as nat) && is_pow2(reply.cq_entries as nat)
                && reply.region_size < crate::ring::HEADER_SIZE + reply.sq_entries
                * crate::ring::SQE_SIZE + reply.cq_entries * crate::ring::CQE_SIZE ==> {
                &&& r == Err::<(), Error>(Error::InvalidArgs)
                &&& *final(self) == *old(self)
            },
            old(self).state() == SessionState::Uninitialized && reply.ok && reply.handle is Some
                && is_pow2(reply.sq_entries as nat) && is_pow2(reply.cq_entries as nat)
                && reply.region_size >= crate::ring::HEADER_SIZE + reply.sq_entries
                * crate::ring::SQE_SIZE + reply.cq_entries * crate::ring::CQE_SIZE ==> {
                &&& r == Ok::<(), Error>(())
                &&& final(self).state() == SessionState::RingConfigured
                &&& final(self).sq_entries() == reply.sq_entries
                &&& final(self).cq_entries() == reply.cq_entries
            },
    {
        match self.state {
            SessionState::Uninitialized => {},
            _ => {
                return Err(Error::InvalidArgs);
            },
        }
        if !reply.ok || reply.handle.is_none() {
            return Err(Error::Generic);
        }
        if !crate::ring::check_pow2(reply.sq_entries) || !crate::ring::check_pow2(
            reply.cq_entries,
        ) {
            return Err(Error::InvalidArgs);
        }
        if reply.region_size < required_region_size(reply.sq_entries, reply.cq_entries) {
            return Err(Error::InvalidArgs);
        }
        self.sq_entries = reply.sq_entries;
        self.cq_entries = reply.cq_entries;
        self.state = SessionState::RingConfigured;
        Ok(())
    }

    /// Builds the buffer setup request for a client-allocated buffer: the
    /// region capability rides along, and the registers carry the
    /// server-side address, the size, and the physical address the server
    /// needs for DMA-capable descriptors. Rejects a session that is not
    /// `RingConfigured`.
    pub fn buffer_setup_offer(
        &self,
        opcode: usize,
        handle: MemoryRegionHandle,
        vaddr: u64,
        size: u64,
        paddr: u64,
    ) -> (r: Result<ControlRequest, Error>)
        ensures
            self.state() != SessionState::RingConfigured ==> r is Err && r->Err_0
                == Error::InvalidArgs,
            self.state() == SessionState::RingConfigured ==> {
                &&& r is Ok
                &&& r->Ok_0.tag == (MsgTag {
                    protocol: self.protocol(),
                    opcode,
                    flags: MSG_FLAG_HAS_CAP,
                })
                &&& r->Ok_0.mrs[0] == vaddr
                &&& r->Ok_0.mrs[1] == size
                &&& r->Ok_0.mrs[2] == paddr
                &&& r->Ok_0.cap_transfer == Some(handle.cap)
                &&& r->Ok_0.recv_window == None::<u64>
            },
    {
        match self.state {
            SessionState::RingConfigured => {},
            _ => {
                return Err(Error::InvalidArgs);
            },
        }
        let mrs: [u64; 8] = [vaddr, size, paddr, 0u64, 0u64, 0u64, 0u64, 0u64];
        Ok(
            ControlRequest {
                tag: MsgTag::new(self.protocol, opcode, MSG_FLAG_HAS_CAP),
                mrs,
                buffer: Vec::new(),
                cap_transfer: Some(handle.cap),
                recv_window: None,
            },
        )
    }

    /// Builds the buffer setup request for a server-allocated buffer: no
    /// argument travels, and `recv_slot` is designated for the region
    /// capability of the reply. Rejects a session that is not
    /// `RingConfigured`.
    pub fn buffer_setup_request(&self, opcode: usize, recv_slot: u64) -> (r: Result<
        ControlRequest,
        Error,
    >)
        ensures
            self.state() != SessionState::RingConfigured ==> r is Err && r->Err_0
                == Error::InvalidArgs,
            self.state() == SessionState::RingConfigured ==> {
                &&& r is Ok
                &&& r->Ok_0.tag == (MsgTag {
                    protocol: self.protocol(),
                    opcode,
                    flags: MSG_FLAG_NONE,
                })
                &&& r->Ok_0.cap_transfer == None::<u64>
                &&& r->Ok_0.recv_window == Some(recv_slot)
            },
    {
        match self.state {
            SessionState::RingConfigured => {},
            _ => {
                return Err(Error::InvalidArgs);
            },
        }
        Ok(
            ControlRequest {
                tag: MsgTag::new(self.protocol, opcode, MSG_FLAG_NONE),
                mrs: crate::protocol::empty_mrs(),
                buffer: Vec::new(),
                cap_transfer: None,
                recv_window: Some(recv_slot),
            },
        )
    }

    /// Judges the buffer setup reply. Success needs the reply accepted, a
    /// region capability present, and a nonzero page-aligned size; then
    /// the session holds the buffer geometry and stands
    /// `BufferConfigured`. Any shortfall leaves the session exactly as it
    /// was, so it can never reach `Active`.
    pub fn apply_buffer_setup(&mut self, reply: &BufferSetupReply) -> (r: Result<(), Error>)
        requires
            old(self).wf(),
        ensures
            final(self).wf(),
            final(self).protocol() == old(self).protocol(),
            final(self).control() == old(self).control(),
            final(self).notify() == old(self).notify(),
            final(self).ids() == old(self).ids(),
            final(self).sq_entries() == old(self).sq_entries(),
            final(self).cq_entries() == old(self).cq_entries(),
            old(self).state() != SessionState::RingConfigured ==> {
                &&& r == Err::<(), Error>(Error::InvalidArgs)
                &&& *final(self) == *old(self)
            },
            old(self).state() == SessionState::RingConfigured && !(reply.ok
                && reply.handle is Some) ==> {
                &&& r == Err::<(), Error>(Error::Generic)
                &&& *final(self) == *old(self)
            },
            old(self).state() == SessionState::RingConfigured && reply.ok && reply.handle is Some
                && !(0 < reply.size && reply.size % PAGE_SIZE == 0 && reply.vaddr % PAGE_SIZE
                == 0) ==> {
                &&& r == Err::<(), Error>(Error::InvalidArgs)
                &&& *final(self) == *old(self)
            },
            old(self).state() == SessionState::RingConfigured && reply.ok && reply.handle is Some
                && 0 < reply.size && reply.size % PAGE_SIZE == 0 && reply.vaddr % PAGE_SIZE == 0
                ==> {
                &&& r == Ok::<(), Error>(())
                &&& final(self).state() == SessionState::BufferConfigured
                &&& final(self).buffer_vaddr() == reply.vaddr
                &&& final(self).buffer_size() == reply.size
                &&& final(self).buffer_paddr() == reply.paddr
            },
    {
        match self.state {
            SessionState::RingConfigured => {},
            _ => {
                return Err(Error::InvalidArgs);
            },
        }
        if !reply.ok || reply.handle.is_none() {
            return Err(Error::Generic);
        }
        if reply.size == 0 || reply.size % PAGE_SIZE != 0 || reply.vaddr % PAGE_SIZE != 0 {
            return Err(Error::InvalidArgs);
        }
        self.buffer_vaddr = reply.vaddr;
        self.buffer_size = reply.size;
        self.buffer_paddr = reply.paddr;
        self.state = SessionState::BufferConfigured;
        Ok(())
    }

    /// Marks the handshake finished once the control-plane facts are
    /// cached: only a `BufferConfigured` session becomes `Active`.
    pub fn complete_handshake(&mut self) -> (r: Result<(), Error>)
        requires
            old(self).wf(),
        ensures
            final(self).wf(),
            final(self).protocol() == old(self).protocol(),
            final(self).control() == old(self).control(),
            final(self).notify() == old(self).notify(),
            final(self).ids() == old(self).ids(),
            final(self).sq_entries() == old(self).sq_entries(),
            final(self).cq_entries() == old(self).cq_entries(),
            old(self).state() != SessionState::BufferConfigured ==> {
                &&& r == Err::<(), Error>(Error::NotInitialized)
                &&& *final(self) == *old(self)
            },
            old(self).state() == SessionState::BufferConfigured ==> {
                &&& r == Ok::<(), Error>(())
                &&& final(self).state() == SessionState::Active
            },
    {
        match self.state {
            SessionState::BufferConfigured => {},
            _ => {
                return Err(Error::NotInitialized);
            },
        }
        self.state = SessionState::Active;
        Ok(())
    }

    /// Hands out a fresh correlation id for a data-plane operation.
    pub fn fresh_id(&mut self) -> (r: u64)
        requires
            old(self).wf(),
            old(self).ids().next_id() < u64::MAX,
        ensures
            final(self).wf(),
            final(self).state() == old(self).state(),
            final(self).protocol() == old(self).protocol(),
            final(self).control() == old(self).control(),
            final(self).notify() == old(self).notify(),
            final(self).sq_entries() == old(self).sq_entries(),
            final(self).cq_entries() == old(self).cq_entries(),
            final(self).buffer_vaddr() == old(self).buffer_vaddr(),
            final(self).buffer_size() == old(self).buffer_size(),
            final(self).buffer_paddr() == old(self).buffer_paddr(),
            r == old(self).ids().next_id(),
            final(self).ids().next_id() == old(self).ids().next_id() + 1,
            final(self).ids().issued() == old(self).ids().issued().push(r),
    {
        self.ids.fresh_id()
    }
}

} // verus!
