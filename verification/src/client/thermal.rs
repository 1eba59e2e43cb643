//! The thermal client: zone temperature reads.

use vstd::prelude::*;
use crate::caps::Endpoint;
use crate::protocol::{thermal, ControlReply, ControlRequest, MsgTag, MSG_FLAG_NONE, THERMAL_PROTO};
use crate::session::{Session, SessionState};

verus! {

/// One client of a thermal service.
pub struct ThermalClient {
    session: Session,
}

impl ThermalClient {
    /// The session under this client.
    pub closed spec fn session(self) -> Session {
        self.session
    }

    /// The session is sound.
    pub open spec fn wf(self) -> bool {
        self.session().wf()
    }

    /// A fresh client over the given control endpoint.
    pub fn new(endpoint: Endpoint) -> (r: ThermalClient)
        ensures
            r.wf(),
            r.session().state() == SessionState::Uninitialized,
            r.session().control() == endpoint,
    {
        ThermalClient { session: Session::new(endpoint, THERMAL_PROTO) }
    }

    /// The control request asking for the temperature of one zone.
    pub fn get_temperature_request(&self, zone: u32) -> (r: ControlRequest)
        ensures
            r.tag == (MsgTag {
                protocol: THERMAL_PROTO,
                opcode: thermal::GET_TEMPERATURE,
                flags: MSG_FLAG_NONE,
            }),
            r.mrs[0] == zone as u64,
    {
        ControlRequest {
            tag: MsgTag::new(THERMAL_PROTO, thermal::GET_TEMPERATURE, MSG_FLAG_NONE),
            mrs: [zone as u64, 0u64, 0u64, 0u64, 0u64, 0u64, 0u64, 0u64],
            buffer: Vec::new(),
            cap_transfer: None,
            recv_window: None,
        }
    }

    /// The temperature of a reply, in tenths of a kelvin.
    pub fn parse_temperature_reply(&self, reply: &ControlReply) -> (r: u32)
        ensures
            r == reply.mrs[0] as u32,
    {
        reply.mrs[0] as u32
    }
}

} // verus!
