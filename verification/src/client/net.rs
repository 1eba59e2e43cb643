//! The network device client: MAC address retrieval and packet
//! transmit/receive over the ring, with payloads staged in the shared
//! data buffer.

use vstd::prelude::*;
use crate::caps::Endpoint;
use crate::error::Error;
use crate::protocol::{net, ControlReply, ControlRequest, MsgTag, MSG_FLAG_NONE, NET_PROTO};
use crate::protocol::net::MacAddress;
use crate::ring::{Cqe, IoRing};
use crate::session::{Session, SessionState};
use crate::shm::SharedBufferRegion;
use crate::transport::IoRingClient;

verus! {

/// One client of a network device server.
pub struct NetClient {
    session: Session,
    transport: IoRingClient,
    mac: Option<MacAddress>,
}

impl NetClient {
    /// The session under this client.
    pub closed spec fn session(self) -> Session {
        self.session
    }

    /// The ring transport under this client.
    pub closed spec fn transport(self) -> IoRingClient {
        self.transport
    }

    /// The cached hardware address, once fetched.
    pub closed spec fn mac(self) -> Option<MacAddress> {
        self.mac
    }

    /// The session is sound.
    pub open spec fn wf(self) -> bool {
        self.session().wf()
    }

    /// A fresh client over the given control endpoint.
    pub fn new(endpoint: Endpoint) -> (r: NetClient)
        ensures
            r.wf(),
            r.session().state() == SessionState::Uninitialized,
            r.session().control() == endpoint,
            r.mac() == None::<MacAddress>,
            r.transport().parked() == Seq::<Cqe>::empty(),
    {
        NetClient {
            session: Session::new(endpoint, NET_PROTO),
            transport: IoRingClient::new(),
            mac: None,
        }
    }

    /// Borrow of the session, for the handshake calls.
    pub fn session_mut(&mut self) -> (r: &mut Session)
        ensures
            *r == old(self).session(),
            final(self).session() == *final(r),
            final(self).transport() == old(self).transport(),
            final(self).mac() == old(self).mac(),
    {
        &mut self.session
    }

    /// The control endpoint of this client.
    pub fn endpoint(&self) -> (r: Endpoint)
        ensures
            r == self.session().control(),
    {
        self.session.control_endpoint()
    }

    /// Wires the endpoint the caller should signal after a submission,
    /// as the ring transport is attached to this client.
    pub fn set_server_notify(&mut self, endpoint: Endpoint)
        ensures
            final(self).session() == old(self).session(),
            final(self).mac() == old(self).mac(),
            final(self).transport().server_notify() == Some(endpoint),
            final(self).transport().parked() == old(self).transport().parked(),
    {
        self.transport.set_server_notify(endpoint);
    }

    /// The control request asking for the hardware address.
    pub fn mac_request(&self) -> (r: ControlRequest)
        ensures
            r.tag == (MsgTag { protocol: NET_PROTO, opcode: net::GET_MAC, flags: MSG_FLAG_NONE }),
            r.cap_transfer == None::<u64>,
            r.recv_window == None::<u64>,
    {
        ControlRequest {
            tag: MsgTag::new(NET_PROTO, net::GET_MAC, MSG_FLAG_NONE),
            mrs: crate::protocol::empty_mrs(),
            buffer: Vec::new(),
            cap_transfer: None,
            recv_window: None,
        }
    }

    /// Reads the hardware address out of the reply registers, one octet
    /// per register; a failed call yields the all-zero address.
    pub fn parse_mac_reply(&self, reply: &ControlReply) -> (r: MacAddress)
        ensures
            reply.ok ==> forall|i: int| 0 <= i < 6 ==> r.octets[i] == reply.mrs[i] as u8,
            !reply.ok ==> forall|i: int| 0 <= i < 6 ==> r.octets[i] == 0u8,
    {
        if reply.ok {
            MacAddress {
                octets: [
                    reply.mrs[0] as u8,
                    reply.mrs[1] as u8,
                    reply.mrs[2] as u8,
                    reply.mrs[3] as u8,
                    reply.mrs[4] as u8,
                    reply.mrs[5] as u8,
                ],
            }
        } else {
            MacAddress { octets: [0u8, 0u8, 0u8, 0u8, 0u8, 0u8] }
        }
    }

    /// Caches the hardware address fetched during connection.
    pub fn cache_mac(&mut self, mac: MacAddress)
        ensures
            final(self).session() == old(self).session(),
            final(self).transport() == old(self).transport(),
            final(self).mac() == Some(mac),
    {
        self.mac = Some(mac);
    }

    /// The cached hardware address, or the all-zero address before one
    /// was fetched.
    pub fn mac_address(&self) -> (r: MacAddress)
        ensures
            self.mac() is Some ==> r == self.mac().unwrap(),
            self.mac() is None ==> forall|i: int| 0 <= i < 6 ==> r.octets[i] == 0u8,
    {
        match self.mac {
            Some(m) => m,
            None => MacAddress { octets: [0u8, 0u8, 0u8, 0u8, 0u8, 0u8] },
        }
    }

    /// Stages one outgoing packet at the start of the shared buffer and
    /// submits its transmit entry. Returns the correlation id to poll
    /// for. Rejects before anything is copied or submitted: a session
    /// that is not active, then a packet larger than the shared buffer.
    pub fn begin_send_packet(
        &mut self,
        ring: &mut IoRing,
        shm: &mut SharedBufferRegion,
        buf: &Vec<u8>,
    ) -> (r: Result<u64, Error>)
        requires
            old(self).wf(),
            old(self).session().ids().next_id() < u64::MAX,
            old(ring).wf(),
            old(ring).sq().producer_index() < u64::MAX,
            buf@.len() <= u32::MAX,
        ensures
            final(self).wf(),
            final(ring).wf(),
            final(ring).cq() == old(ring).cq(),
            final(self).transport() == old(self).transport(),
            final(self).mac() == old(self).mac(),
            final(shm).client_vaddr() == old(shm).client_vaddr(),
            final(shm).size() == old(shm).size(),
            old(self).session().state() != SessionState::Active ==> {
                &&& r == Err::<u64, Error>(Error::NotInitialized)
                &&& *final(self) == *old(self)
                &&& *final(ring) == *old(ring)
                &&& *final(shm) == *old(shm)
            },
            old(self).session().state() == SessionState::Active && buf@.len() > old(shm).size()
                ==> {
                &&& r == Err::<u64, Error>(Error::InvalidArgs)
                &&& *final(self) == *old(self)
                &&& *final(ring) == *old(ring)
                &&& *final(shm) == *old(shm)
            },
            old(self).session().state() == SessionState::Active && buf@.len() <= old(shm).size()
                ==> {
                &&& forall|i: int| 0 <= i < buf@.len() ==> final(shm).view()[i] == buf@[i]
                &&& (old(ring).sq().is_full() ==> r == Err::<u64, Error>(Error::OutOfMemory)
                    && *final(ring) == *old(ring))
                &&& (!old(ring).sq().is_full() ==> {
                    &&& r == Ok::<u64, Error>(old(self).session().ids().next_id())
                    &&& final(ring).sq().contents() == old(ring).sq().contents().push(
                        crate::protocol::net::sqe_send_spec(
                            old(shm).client_vaddr(),
                            buf@.len() as u32,
                            old(self).session().ids().next_id(),
                        ),
                    )
                })
            },
    {
        if !self.session.is_active() {
            return Err(Error::NotInitialized);
        }
        if buf.len() > shm.size_bytes() {
            return Err(Error::InvalidArgs);
        }
        let wrote = shm.write_at(0, buf);
        proof {
            assert(wrote is Ok);
        }
        let id = self.session.fresh_id();
        let sqe = net::sqe_send(shm.client_vaddr_value(), buf.len() as u32, id);
        let submitted = self.transport.submit(ring, sqe);
        match submitted {
            Ok(()) => Ok(id),
            Err(e) => Err(e),
        }
    }

    /// Submits one receive entry under a caller-chosen correlation id:
    /// the server will land at most `len` bytes at the start of the
    /// shared buffer. Rejects before anything is submitted: a session
    /// that is not active, then a length beyond the shared buffer.
    pub fn submit_recv(&mut self, ring: &mut IoRing, shm: &SharedBufferRegion, len: u32, id: u64)
        -> (r: Result<(), Error>)
        requires
            old(self).wf(),
            old(ring).wf(),
            old(ring).sq().producer_index() < u64::MAX,
        ensures
            final(self).wf(),
            final(ring).wf(),
            final(ring).cq() == old(ring).cq(),
            *final(self) == *old(self),
            old(self).session().state() != SessionState::Active ==> {
                &&& r == Err::<(), Error>(Error::NotInitialized)
                &&& *final(ring) == *old(ring)
            },
            old(self).session().state() == SessionState::Active && len as nat > shm.size() ==> {
                &&& r == Err::<(), Error>(Error::InvalidArgs)
                &&& *final(ring) == *old(ring)
            },
            old(self).session().state() == SessionState::Active && len as nat <= shm.size()
                ==> {
                &&& (old(ring).sq().is_full() ==> r == Err::<(), Error>(Error::OutOfMemory)
                    && *final(ring) == *old(ring))
                &&& (!old(ring).sq().is_full() ==> {
                    &&& r == Ok::<(), Error>(())
                    &&& final(ring).sq().contents() == old(ring).sq().contents().push(
                        crate::protocol::net::sqe_recv_spec(shm.client_vaddr(), len, id),
                    )
                })
            },
    {
        if !self.session.is_active() {
            return Err(Error::NotInitialized);
        }
        if len as usize > shm.size_bytes() {
            return Err(Error::InvalidArgs);
        }
        let sqe = net::sqe_recv(shm.client_vaddr_value(), len, id);
        self.transport.submit(ring, sqe)
    }

    /// Non-blocking retrieval of the oldest unclaimed completion.
    pub fn peek_cqe(&mut self, ring: &mut IoRing) -> (r: Option<Cqe>)
        requires
            old(self).wf(),
            old(ring).wf(),
        ensures
            final(self).wf(),
            final(ring).wf(),
            final(ring).sq() == old(ring).sq(),
            final(self).session() == old(self).session(),
            final(self).mac() == old(self).mac(),
            old(self).transport().outstanding(*old(ring)).len() == 0 ==> {
                &&& r == None::<Cqe>
                &&& *final(self) == *old(self)
                &&& *final(ring) == *old(ring)
            },
            old(self).transport().outstanding(*old(ring)).len() > 0 ==> {
                &&& r == Some(old(self).transport().outstanding(*old(ring))[0])
                &&& final(self).transport().outstanding(*final(ring)) == old(
                    self,
                ).transport().outstanding(*old(ring)).drop_first()
            },
    {
        self.transport.peek_completion(ring)
    }

    /// Claims the completion of operation `id`; see
    /// [`IoRingClient::take_completion`].
    pub fn take_completion(&mut self, ring: &mut IoRing, id: u64) -> (r: Option<i32>)
        requires
            old(self).wf(),
            old(ring).wf(),
        ensures
            final(self).wf(),
            final(ring).wf(),
            final(ring).sq() == old(ring).sq(),
            final(self).session() == old(self).session(),
            final(self).mac() == old(self).mac(),
            match crate::transport::find_matching(
                old(self).transport().outstanding(*old(ring)),
                id,
            ) {
                Some(c) => {
                    &&& r == Some(c.res)
                    &&& final(self).transport().outstanding(*final(ring))
                        == crate::transport::remove_first_matching(
                        old(self).transport().outstanding(*old(ring)),
                        id,
                    )
                },
                None => {
                    &&& r == None::<i32>
                    &&& final(self).transport().outstanding(*final(ring)) == old(
                        self,
                    ).transport().outstanding(*old(ring))
                },
            },
    {
        self.transport.take_completion(ring, id)
    }
}

} // verus!
