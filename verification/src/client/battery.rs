//! The battery client: power source, level and charging status reads.

use vstd::prelude::*;
use crate::caps::Endpoint;
use crate::protocol::{battery, ControlReply, ControlRequest, MsgTag, BATTERY_PROTO, MSG_FLAG_NONE};
use crate::session::{Session, SessionState};

verus! {

/// One client of a battery service.
pub struct BatteryClient {
    session: Session,
}

impl BatteryClient {
    /// The session under this client.
    pub closed spec fn session(self) -> Session {
        self.session
    }

    /// The session is sound.
    pub open spec fn wf(self) -> bool {
        self.session().wf()
    }

    /// A fresh client over the given control endpoint.
    pub fn new(endpoint: Endpoint) -> (r: BatteryClient)
        ensures
            r.wf(),
            r.session().state() == SessionState::Uninitialized,
            r.session().control() == endpoint,
    {
        BatteryClient { session: Session::new(endpoint, BATTERY_PROTO) }
    }

    /// The control request asking for the power source.
    pub fn get_power_source_request(&self) -> (r: ControlRequest)
        ensures
            r.tag == (MsgTag {
                protocol: BATTERY_PROTO,
                opcode: battery::GET_POWER_SOURCE,
                flags: MSG_FLAG_NONE,
            }),
    {
        ControlRequest {
            tag: MsgTag::new(BATTERY_PROTO, battery::GET_POWER_SOURCE, MSG_FLAG_NONE),
            mrs: crate::protocol::empty_mrs(),
            buffer: Vec::new(),
            cap_transfer: None,
            recv_window: None,
        }
    }

    /// The control request asking for the battery level.
    pub fn get_level_request(&self) -> (r: ControlRequest)
        ensures
            r.tag == (MsgTag {
                protocol: BATTERY_PROTO,
                opcode: battery::GET_LEVEL,
                flags: MSG_FLAG_NONE,
            }),
    {
        ControlRequest {
            tag: MsgTag::new(BATTERY_PROTO, battery::GET_LEVEL, MSG_FLAG_NONE),
            mrs: crate::protocol::empty_mrs(),
            buffer: Vec::new(),
            cap_transfer: None,
            recv_window: None,
        }
    }

    /// The control request asking for the charging status.
    pub fn get_status_request(&self) -> (r: ControlRequest)
        ensures
            r.tag == (MsgTag {
                protocol: BATTERY_PROTO,
                opcode: battery::GET_STATUS,
                flags: MSG_FLAG_NONE,
            }),
    {
        ControlRequest {
            tag: MsgTag::new(BATTERY_PROTO, battery::GET_STATUS, MSG_FLAG_NONE),
            mrs: crate::protocol::empty_mrs(),
            buffer: Vec::new(),
            cap_transfer: None,
            recv_window: None,
        }
    }

    /// The scalar a battery reply carries in its first register.
    pub fn parse_value_reply(&self, reply: &ControlReply) -> (r: u32)
        ensures
            r == reply.mrs[0] as u32,
    {
        reply.mrs[0] as u32
    }
}

} // verus!
