//! The input device client: shared event-ring setup and single-event
//! polling over the classic call as the slow-path fallback.

use vstd::prelude::*;
use crate::caps::Endpoint;
use crate::error::Error;
use crate::protocol::{input, ControlReply, ControlRequest, MsgTag, INPUT_PROTO, MSG_FLAG_NONE};
use crate::protocol::input::InputEvent;
use crate::ring::{check_pow2, is_pow2};
use crate::session::{Session, SessionState};

verus! {

/// One client of an input device server.
pub struct InputClient {
    session: Session,
}

impl InputClient {
    /// The session under this client.
    pub closed spec fn session(self) -> Session {
        self.session
    }

    /// The session is sound.
    pub open spec fn wf(self) -> bool {
        self.session().wf()
    }

    /// A fresh client over the given control endpoint.
    pub fn new(endpoint: Endpoint) -> (r: InputClient)
        ensures
            r.wf(),
            r.session().state() == SessionState::Uninitialized,
            r.session().control() == endpoint,
    {
        InputClient { session: Session::new(endpoint, INPUT_PROTO) }
    }

    /// Borrow of the session.
    pub fn session_mut(&mut self) -> (r: &mut Session)
        ensures
            *r == old(self).session(),
            final(self).session() == *final(r),
    {
        &mut self.session
    }

    /// Bytes the shared event ring occupies for `entries` event slots:
    /// the slots rounded up to whole pages.
    pub fn uring_region_size(entries: u32) -> (r: u64)
        ensures
            r % 4096 == 0,
            entries * input::INPUT_EVENT_SLOT_SIZE <= r,
            r < entries * input::INPUT_EVENT_SLOT_SIZE + 4096,
    {
        let raw: u64 = (entries as u64) * 80;
        let r: u64 = (raw + 4095) / 4096 * 4096;
        proof {
            let t = raw + 4095;
            vstd::arithmetic::div_mod::lemma_fundamental_div_mod(t as int, 4096);
            vstd::arithmetic::div_mod::lemma_mod_multiples_basic(t as int / 4096, 4096);
        }
        r
    }

    /// The control request asking for the shared event ring. Rejects an
    /// entry count that is not a power of two.
    pub fn setup_uring_request(&self, entries: u32) -> (r: Result<ControlRequest, Error>)
        ensures
            !is_pow2(entries as nat) ==> r is Err && r->Err_0 == Error::InvalidArgs,
            is_pow2(entries as nat) ==> {
                &&& r is Ok
                &&& r->Ok_0.tag == (MsgTag {
                    protocol: INPUT_PROTO,
                    opcode: input::SETUP_URING,
                    flags: MSG_FLAG_NONE,
                })
                &&& r->Ok_0.mrs[0] == entries as u64
            },
    {
        if !check_pow2(entries) {
            return Err(Error::InvalidArgs);
        }
        Ok(
            ControlRequest {
                tag: MsgTag::new(INPUT_PROTO, input::SETUP_URING, MSG_FLAG_NONE),
                mrs: [entries as u64, 0u64, 0u64, 0u64, 0u64, 0u64, 0u64, 0u64],
                buffer: Vec::new(),
                cap_transfer: None,
                recv_window: None,
            },
        )
    }

    /// Judges the event-ring reply: a rejected reply is the remote's
    /// failure, a reply without the region capability means the server
    /// could not allocate.
    pub fn check_setup_uring_reply(&self, reply: &ControlReply) -> (r: Result<(), Error>)
        ensures
            !reply.ok ==> r == Err::<(), Error>(Error::Generic),
            reply.ok && reply.cap is None ==> r == Err::<(), Error>(Error::OutOfMemory),
            reply.ok && reply.cap is Some ==> r == Ok::<(), Error>(()),
    {
        if !reply.ok {
            return Err(Error::Generic);
        }
        if reply.cap.is_none() {
            return Err(Error::OutOfMemory);
        }
        Ok(())
    }

    /// The slow-path control request asking for one event.
    pub fn read_event_request(&self) -> (r: ControlRequest)
        ensures
            r.tag == (MsgTag {
                protocol: INPUT_PROTO,
                opcode: input::READ_EVENT,
                flags: MSG_FLAG_NONE,
            }),
    {
        ControlRequest {
            tag: MsgTag::new(INPUT_PROTO, input::READ_EVENT, MSG_FLAG_NONE),
            mrs: crate::protocol::empty_mrs(),
            buffer: Vec::new(),
            cap_transfer: None,
            recv_window: None,
        }
    }

    /// The event of a slow-path reply, read out of the reply registers;
    /// a failed call yields none.
    pub fn parse_event_reply(&self, reply: &ControlReply) -> (r: Option<InputEvent>)
        ensures
            !reply.ok ==> r == None::<InputEvent>,
            reply.ok ==> r == Some(
                InputEvent {
                    type_: reply.mrs[0] as u16,
                    code: reply.mrs[1] as u16,
                    value: reply.mrs[2] as i32,
                    time_ms: reply.mrs[3],
                },
            ),
    {
        if !reply.ok {
            return None;
        }
        Some(
            InputEvent {
                type_: reply.mrs[0] as u16,
                code: reply.mrs[1] as u16,
                value: reply.mrs[2] as i32,
                time_ms: reply.mrs[3],
            },
        )
    }
}

} // verus!
