//! The platform client: system-wide power control.

use vstd::prelude::*;
use crate::caps::Endpoint;
use crate::protocol::{platform, ControlRequest, MsgTag, MSG_FLAG_NONE, PLATFORM_PROTO};
use crate::session::{Session, SessionState};

verus! {

/// One client of the platform power service.
pub struct PlatformClient {
    session: Session,
}

impl PlatformClient {
    /// The session under this client.
    pub closed spec fn session(self) -> Session {
        self.session
    }

    /// The session is sound.
    pub open spec fn wf(self) -> bool {
        self.session().wf()
    }

    /// A fresh client over the given control endpoint.
    pub fn new(endpoint: Endpoint) -> (r: PlatformClient)
        ensures
            r.wf(),
            r.session().state() == SessionState::Uninitialized,
            r.session().control() == endpoint,
    {
        PlatformClient { session: Session::new(endpoint, PLATFORM_PROTO) }
    }

    /// The control request selecting a sleep state, 1 to 4.
    pub fn set_sleep_state_request(&self, state: u32) -> (r: ControlRequest)
        ensures
            r.tag == (MsgTag {
                protocol: PLATFORM_PROTO,
                opcode: platform::SET_SLEEP_STATE,
                flags: MSG_FLAG_NONE,
            }),
            r.mrs[0] == state as u64,
    {
        ControlRequest {
            tag: MsgTag::new(PLATFORM_PROTO, platform::SET_SLEEP_STATE, MSG_FLAG_NONE),
            mrs: [state as u64, 0u64, 0u64, 0u64, 0u64, 0u64, 0u64, 0u64],
            buffer: Vec::new(),
            cap_transfer: None,
            recv_window: None,
        }
    }

    /// The control request resetting the system: zero asks for a warm
    /// reset, one for a cold one.
    pub fn reset_request(&self, warm: bool) -> (r: ControlRequest)
        ensures
            r.tag == (MsgTag {
                protocol: PLATFORM_PROTO,
                opcode: platform::SYSTEM_RESET,
                flags: MSG_FLAG_NONE,
            }),
            warm ==> r.mrs[0] == 0u64,
            !warm ==> r.mrs[0] == 1u64,
    {
        let code: u64 = if warm {
            0u64
        } else {
            1u64
        };
        ControlRequest {
            tag: MsgTag::new(PLATFORM_PROTO, platform::SYSTEM_RESET, MSG_FLAG_NONE),
            mrs: [code, 0u64, 0u64, 0u64, 0u64, 0u64, 0u64, 0u64],
            buffer: Vec::new(),
            cap_transfer: None,
            recv_window: None,
        }
    }

    /// The control request shutting the system down.
    pub fn shutdown_request(&self) -> (r: ControlRequest)
        ensures
            r.tag == (MsgTag {
                protocol: PLATFORM_PROTO,
                opcode: platform::SYSTEM_OFF,
                flags: MSG_FLAG_NONE,
            }),
    {
        ControlRequest {
            tag: MsgTag::new(PLATFORM_PROTO, platform::SYSTEM_OFF, MSG_FLAG_NONE),
            mrs: crate::protocol::empty_mrs(),
            buffer: Vec::new(),
            cap_transfer: None,
            recv_window: None,
        }
    }
}

} // verus!
