//! The serial device client: character and string control calls, line
//! configuration, and asynchronous reads and writes over the ring.

use vstd::prelude::*;
use crate::caps::Endpoint;
use crate::error::Error;
use crate::protocol::{
    uart, ControlReply, ControlRequest, MsgTag, IPC_BUFFER_SIZE, MSG_FLAG_NONE, UART_PROTO,
};
use crate::ring::{Cqe, IoRing};
use crate::session::{Session, SessionState};
use crate::transport::IoRingClient;

verus! {

/// A byte sequence cut into consecutive pieces of at most `cs` bytes;
/// empty when `cs` is zero.
pub open spec fn chunks_of(s: Seq<u8>, cs: nat) -> Seq<Seq<u8>>
    decreases s.len(),
{
    if cs == 0 {
        Seq::empty()
    } else if s.len() == 0 {
        Seq::empty()
    } else if s.len() <= cs {
        seq![s]
    } else {
        seq![s.subrange(0, cs as int)] + chunks_of(s.subrange(cs as int, s.len() as int), cs)
    }
}

/// The inline buffers of a run of control requests, in order.
pub open spec fn buffers_of(s: Seq<ControlRequest>) -> Seq<Seq<u8>> {
    s.map_values(|r: ControlRequest| r.buffer@)
}

/// One client of a serial device server.
pub struct UartClient {
    session: Session,
    transport: IoRingClient,
}

impl UartClient {
    /// The session under this client.
    pub closed spec fn session(self) -> Session {
        self.session
    }

    /// The ring transport under this client.
    pub closed spec fn transport(self) -> IoRingClient {
        self.transport
    }

    /// The session is sound.
    pub open spec fn wf(self) -> bool {
        self.session().wf()
    }

    /// A fresh client over the given control endpoint.
    pub fn new(endpoint: Endpoint) -> (r: UartClient)
        ensures
            r.wf(),
            r.session().state() == SessionState::Uninitialized,
            r.session().control() == endpoint,
            r.transport().parked() == Seq::<Cqe>::empty(),
    {
        UartClient { session: Session::new(endpoint, UART_PROTO), transport: IoRingClient::new() }
    }

    /// Borrow of the session, for the handshake calls.
    pub fn session_mut(&mut self) -> (r: &mut Session)
        ensures
            *r == old(self).session(),
            final(self).session() == *final(r),
            final(self).transport() == old(self).transport(),
    {
        &mut self.session
    }

    /// The control endpoint of this client.
    pub fn endpoint(&self) -> (r: Endpoint)
        ensures
            r == self.session().control(),
    {
        self.session.control_endpoint()
    }

    /// Wires the endpoint the caller should signal after a submission,
    /// as the ring transport is attached to this client.
    pub fn set_server_notify(&mut self, endpoint: Endpoint)
        ensures
            final(self).session() == old(self).session(),
            final(self).transport().server_notify() == Some(endpoint),
            final(self).transport().parked() == old(self).transport().parked(),
    {
        self.transport.set_server_notify(endpoint);
    }

    /// Submits one asynchronous read landing at `addr` inside the shared
    /// buffer, under a caller-chosen correlation id. Rejects a session
    /// that is not active before anything is submitted.
    pub fn read_async(&mut self, ring: &mut IoRing, addr: u64, len: u32, user_data: u64) -> (r:
        Result<(), Error>)
        requires
            old(self).wf(),
            old(ring).wf(),
            old(ring).sq().producer_index() < u64::MAX,
        ensures
            final(self).wf(),
            final(ring).wf(),
            final(ring).cq() == old(ring).cq(),
            *final(self) == *old(self),
            old(self).session().state() != SessionState::Active ==> {
                &&& r == Err::<(), Error>(Error::NotInitialized)
                &&& *final(ring) == *old(ring)
            },
            old(self).session().state() == SessionState::Active ==> {
                &&& (old(ring).sq().is_full() ==> r == Err::<(), Error>(Error::OutOfMemory)
                    && *final(ring) == *old(ring))
                &&& (!old(ring).sq().is_full() ==> {
                    &&& r == Ok::<(), Error>(())
                    &&& final(ring).sq().contents() == old(ring).sq().contents().push(
                        crate::protocol::uart::sqe_read_spec(addr, len, user_data),
                    )
                })
            },
    {
        if !self.session.is_active() {
            return Err(Error::NotInitialized);
        }
        let sqe = uart::sqe_read(addr, len, user_data);
        self.transport.submit(ring, sqe)
    }

    /// Submits one asynchronous write whose payload sits at `addr` inside
    /// the shared buffer, under a caller-chosen correlation id. Rejects a
    /// session that is not active before anything is submitted.
    pub fn write_async(&mut self, ring: &mut IoRing, addr: u64, len: u32, user_data: u64) -> (r:
        Result<(), Error>)
        requires
            old(self).wf(),
            old(ring).wf(),
            old(ring).sq().producer_index() < u64::MAX,
        ensures
            final(self).wf(),
            final(ring).wf(),
            final(ring).cq() == old(ring).cq(),
            *final(self) == *old(self),
            old(self).session().state() != SessionState::Active ==> {
                &&& r == Err::<(), Error>(Error::NotInitialized)
                &&& *final(ring) == *old(ring)
            },
            old(self).session().state() == SessionState::Active ==> {
                &&& (old(ring).sq().is_full() ==> r == Err::<(), Error>(Error::OutOfMemory)
                    && *final(ring) == *old(ring))
                &&& (!old(ring).sq().is_full() ==> {
                    &&& r == Ok::<(), Error>(())
                    &&& final(ring).sq().contents() == old(ring).sq().contents().push(
                        crate::protocol::uart::sqe_write_spec(addr, len, user_data),
                    )
                })
            },
    {
        if !self.session.is_active() {
            return Err(Error::NotInitialized);
        }
        let sqe = uart::sqe_write(addr, len, user_data);
        self.transport.submit(ring, sqe)
    }

    /// Non-blocking retrieval of the oldest unclaimed completion.
    pub fn peek_cqe(&mut self, ring: &mut IoRing) -> (r: Option<Cqe>)
        requires
            old(self).wf(),
            old(ring).wf(),
        ensures
            final(self).wf(),
            final(ring).wf(),
            final(ring).sq() == old(ring).sq(),
            final(self).session() == old(self).session(),
            old(self).transport().outstanding(*old(ring)).len() == 0 ==> {
                &&& r == None::<Cqe>
                &&& *final(self) == *old(self)
                &&& *final(ring) == *old(ring)
            },
            old(self).transport().outstanding(*old(ring)).len() > 0 ==> {
                &&& r == Some(old(self).transport().outstanding(*old(ring))[0])
                &&& final(self).transport().outstanding(*final(ring)) == old(
                    self,
                ).transport().outstanding(*old(ring)).drop_first()
            },
    {
        self.transport.peek_completion(ring)
    }

    /// The control request writing one character.
    pub fn put_char_request(&self, c: u8) -> (r: ControlRequest)
        ensures
            r.tag == (MsgTag { protocol: UART_PROTO, opcode: uart::PUT_CHAR, flags: MSG_FLAG_NONE }),
            r.mrs[0] == c as u64,
            r.cap_transfer == None::<u64>,
            r.recv_window == None::<u64>,
    {
        ControlRequest {
            tag: MsgTag::new(UART_PROTO, uart::PUT_CHAR, MSG_FLAG_NONE),
            mrs: [c as u64, 0u64, 0u64, 0u64, 0u64, 0u64, 0u64, 0u64],
            buffer: Vec::new(),
            cap_transfer: None,
            recv_window: None,
        }
    }

    /// The control request reading one character.
    pub fn get_char_request(&self) -> (r: ControlRequest)
        ensures
            r.tag == (MsgTag { protocol: UART_PROTO, opcode: uart::GET_CHAR, flags: MSG_FLAG_NONE }),
            r.cap_transfer == None::<u64>,
            r.recv_window == None::<u64>,
    {
        ControlRequest {
            tag: MsgTag::new(UART_PROTO, uart::GET_CHAR, MSG_FLAG_NONE),
            mrs: crate::protocol::empty_mrs(),
            buffer: Vec::new(),
            cap_transfer: None,
            recv_window: None,
        }
    }

    /// The character of a read-character reply; a failed call yields
    /// none.
    pub fn parse_get_char_reply(&self, reply: &ControlReply) -> (r: Option<u8>)
        ensures
            reply.ok ==> r == Some(reply.mrs[0] as u8),
            !reply.ok ==> r == None::<u8>,
    {
        if reply.ok {
            Some(reply.mrs[0] as u8)
        } else {
            None
        }
    }

    /// The control request selecting a line speed.
    pub fn set_baud_rate_request(&self, baud: u32) -> (r: ControlRequest)
        ensures
            r.tag == (MsgTag {
                protocol: UART_PROTO,
                opcode: uart::SET_BAUD_RATE,
                flags: MSG_FLAG_NONE,
            }),
            r.mrs[0] == baud as u64,
            r.cap_transfer == None::<u64>,
            r.recv_window == None::<u64>,
    {
        ControlRequest {
            tag: MsgTag::new(UART_PROTO, uart::SET_BAUD_RATE, MSG_FLAG_NONE),
            mrs: [baud as u64, 0u64, 0u64, 0u64, 0u64, 0u64, 0u64, 0u64],
            buffer: Vec::new(),
            cap_transfer: None,
            recv_window: None,
        }
    }

    /// Cuts a string's bytes into the run of control requests that write
    /// it: each request carries at most one inline buffer's worth, and
    /// the buffers, in order, reassemble exactly the input.
    pub fn put_str_requests(&self, bytes: &Vec<u8>) -> (r: Vec<ControlRequest>)
        ensures
            buffers_of(r@) == chunks_of(bytes@, IPC_BUFFER_SIZE as nat),
            forall|k: int|
                0 <= k < r@.len() ==> {
                    &&& (#[trigger] r@[k]).tag == (MsgTag {
                        protocol: UART_PROTO,
                        opcode: uart::PUT_STR,
                        flags: MSG_FLAG_NONE,
                    })
                    &&& r@[k].cap_transfer == None::<u64>
                    &&& r@[k].recv_window == None::<u64>
                },
    {
        let mut reqs: Vec<ControlRequest> = Vec::new();
        let n: usize = bytes.len();
        let mut i: usize = 0;
        proof {
            assert(buffers_of(reqs@) =~= Seq::<Seq<u8>>::empty());
            assert(buffers_of(reqs@) + chunks_of(bytes@, IPC_BUFFER_SIZE as nat) =~= chunks_of(
                bytes@,
                IPC_BUFFER_SIZE as nat,
            ));
            assert(bytes@.subrange(0, n as int) =~= bytes@);
        }
        while i < n
            invariant
                i <= n,
                n == bytes@.len(),
                buffers_of(reqs@) + chunks_of(
                    bytes@.subrange(i as int, n as int),
                    IPC_BUFFER_SIZE as nat,
                ) == chunks_of(bytes@, IPC_BUFFER_SIZE as nat),
                forall|k: int|
                    0 <= k < reqs@.len() ==> {
                        &&& (#[trigger] reqs@[k]).tag == (MsgTag {
                            protocol: UART_PROTO,
                            opcode: uart::PUT_STR,
                            flags: MSG_FLAG_NONE,
                        })
                        &&& reqs@[k].cap_transfer == None::<u64>
                        &&& reqs@[k].recv_window == None::<u64>
                    },
            decreases n - i,
        {
            let remaining: usize = n - i;
            let clen: usize = if remaining <= IPC_BUFFER_SIZE {
                remaining
            } else {
                IPC_BUFFER_SIZE
            };
            let mut chunk: Vec<u8> = Vec::new();
            let mut j: usize = 0;
            while j < clen
                invariant
                    j <= clen,
                    i + clen <= n,
                    n == bytes@.len(),
                    chunk@.len() == j as nat,
                    forall|t: int| 0 <= t < j ==> chunk@[t] == bytes@[i + t],
                decreases clen - j,
            {
                let b: u8 = bytes[i + j];
                chunk.push(b);
                j = j + 1;
            }
            proof {
                assert(chunk@ =~= bytes@.subrange(i as int, i + clen));
            }
            let ghost reqs_before = reqs@;
            let ghost chunk_view = chunk@;
            reqs.push(
                ControlRequest {
                    tag: MsgTag::new(UART_PROTO, uart::PUT_STR, MSG_FLAG_NONE),
                    mrs: crate::protocol::empty_mrs(),
                    buffer: chunk,
                    cap_transfer: None,
                    recv_window: None,
                },
            );
            proof {
                let cs = IPC_BUFFER_SIZE as nat;
                let rest = bytes@.subrange(i as int, n as int);
                assert(buffers_of(reqs@) =~= buffers_of(reqs_before).push(chunk_view));
                if remaining <= IPC_BUFFER_SIZE {
                    assert(chunks_of(rest, cs) == seq![rest]);
                    assert(chunk_view =~= rest);
                    assert(buffers_of(reqs_before).push(chunk_view) + chunks_of(
                        bytes@.subrange(i + clen, n as int),
                        cs,
                    ) =~= buffers_of(reqs_before) + chunks_of(rest, cs));
                } else {
                    assert(rest.subrange(0, cs as int) =~= bytes@.subrange(i as int, i + clen));
                    assert(rest.subrange(cs as int, rest.len() as int) =~= bytes@.subrange(
                        i + clen,
                        n as int,
                    ));
                    assert(chunks_of(rest, cs) == seq![rest.subrange(0, cs as int)] + chunks_of(
                        rest.subrange(cs as int, rest.len() as int),
                        cs,
                    ));
                    assert(buffers_of(reqs_before).push(chunk_view) + chunks_of(
                        bytes@.subrange(i + clen, n as int),
                        cs,
                    ) =~= buffers_of(reqs_before) + chunks_of(rest, cs));
                }
            }
            i = i + clen;
        }
        proof {
            assert(chunks_of(bytes@.subrange(n as int, n as int), IPC_BUFFER_SIZE as nat)
                =~= Seq::<Seq<u8>>::empty());
            assert(buffers_of(reqs@) + Seq::<Seq<u8>>::empty() =~= buffers_of(reqs@));
        }
        reqs
    }
}

} // verus!
