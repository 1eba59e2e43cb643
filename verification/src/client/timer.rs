//! The timer device client: cached counter frequency, wall-clock reads
//! and writes, and alarms.

use vstd::prelude::*;
use crate::caps::Endpoint;
use crate::protocol::{timer, ControlReply, ControlRequest, MsgTag, MSG_FLAG_NONE, TIMER_PROTO};
use crate::session::{Session, SessionState};

verus! {

/// One client of a timer server.
pub struct TimerClient {
    session: Session,
    freq: u64,
}

impl TimerClient {
    /// The session under this client.
    pub closed spec fn session(self) -> Session {
        self.session
    }

    /// Cached counter frequency; zero until the connect reply arrives.
    pub closed spec fn freq_spec(self) -> u64 {
        self.freq
    }

    /// The session is sound.
    pub open spec fn wf(self) -> bool {
        self.session().wf()
    }

    /// A fresh client over the given control endpoint.
    pub fn new(endpoint: Endpoint) -> (r: TimerClient)
        ensures
            r.wf(),
            r.session().state() == SessionState::Uninitialized,
            r.session().control() == endpoint,
            r.freq_spec() == 0,
    {
        TimerClient { session: Session::new(endpoint, TIMER_PROTO), freq: 0 }
    }

    /// The control request asking for the counter frequency.
    pub fn freq_request(&self) -> (r: ControlRequest)
        ensures
            r.tag == (MsgTag { protocol: TIMER_PROTO, opcode: timer::GET_FREQ, flags: MSG_FLAG_NONE }),
    {
        ControlRequest {
            tag: MsgTag::new(TIMER_PROTO, timer::GET_FREQ, MSG_FLAG_NONE),
            mrs: crate::protocol::empty_mrs(),
            buffer: Vec::new(),
            cap_transfer: None,
            recv_window: None,
        }
    }

    /// Caches the counter frequency of the reply's first register.
    pub fn apply_freq_reply(&mut self, reply: &ControlReply)
        ensures
            final(self).session() == old(self).session(),
            final(self).freq_spec() == reply.mrs[0],
    {
        self.freq = reply.mrs[0];
    }

    /// Cached counter frequency.
    pub fn freq(&self) -> (r: u64)
        ensures
            r == self.freq_spec(),
    {
        self.freq
    }

    /// The control request asking for the current UNIX time.
    pub fn get_time_request(&self) -> (r: ControlRequest)
        ensures
            r.tag == (MsgTag { protocol: TIMER_PROTO, opcode: timer::GET_TIME, flags: MSG_FLAG_NONE }),
    {
        ControlRequest {
            tag: MsgTag::new(TIMER_PROTO, timer::GET_TIME, MSG_FLAG_NONE),
            mrs: crate::protocol::empty_mrs(),
            buffer: Vec::new(),
            cap_transfer: None,
            recv_window: None,
        }
    }

    /// The time of a read-time reply; a failed call reads as zero.
    pub fn parse_time_reply(&self, reply: &ControlReply) -> (r: u64)
        ensures
            reply.ok ==> r == reply.mrs[0],
            !reply.ok ==> r == 0,
    {
        if reply.ok {
            reply.mrs[0]
        } else {
            0
        }
    }

    /// The control request setting the current UNIX time.
    pub fn set_time_request(&self, timestamp: u64) -> (r: ControlRequest)
        ensures
            r.tag == (MsgTag { protocol: TIMER_PROTO, opcode: timer::SET_TIME, flags: MSG_FLAG_NONE }),
            r.mrs[0] == timestamp,
    {
        ControlRequest {
            tag: MsgTag::new(TIMER_PROTO, timer::SET_TIME, MSG_FLAG_NONE),
            mrs: [timestamp, 0u64, 0u64, 0u64, 0u64, 0u64, 0u64, 0u64],
            buffer: Vec::new(),
            cap_transfer: None,
            recv_window: None,
        }
    }

    /// The control request arming the alarm.
    pub fn set_alarm_request(&self, timestamp: u64) -> (r: ControlRequest)
        ensures
            r.tag == (MsgTag {
                protocol: TIMER_PROTO,
                opcode: timer::SET_ALARM,
                flags: MSG_FLAG_NONE,
            }),
            r.mrs[0] == timestamp,
    {
        ControlRequest {
            tag: MsgTag::new(TIMER_PROTO, timer::SET_ALARM, MSG_FLAG_NONE),
            mrs: [timestamp, 0u64, 0u64, 0u64, 0u64, 0u64, 0u64, 0u64],
            buffer: Vec::new(),
            cap_transfer: None,
            recv_window: None,
        }
    }

    /// The control request stopping the alarm.
    pub fn stop_alarm_request(&self) -> (r: ControlRequest)
        ensures
            r.tag == (MsgTag {
                protocol: TIMER_PROTO,
                opcode: timer::STOP_ALARM,
                flags: MSG_FLAG_NONE,
            }),
    {
        ControlRequest {
            tag: MsgTag::new(TIMER_PROTO, timer::STOP_ALARM, MSG_FLAG_NONE),
            mrs: crate::protocol::empty_mrs(),
            buffer: Vec::new(),
            cap_transfer: None,
            recv_window: None,
        }
    }
}

} // verus!
