//! The framebuffer client: cached display information and rectangle
//! flushes.

use vstd::prelude::*;
use crate::caps::Endpoint;
use crate::protocol::{fb, ControlReply, ControlRequest, MsgTag, FB_PROTO, MSG_FLAG_NONE};
use crate::protocol::fb::FbInfo;
use crate::session::{Session, SessionState};

verus! {

/// One client of a display server.
pub struct FbClient {
    session: Session,
    info: FbInfo,
}

impl FbClient {
    /// The session under this client.
    pub closed spec fn session(self) -> Session {
        self.session
    }

    /// The cached display information.
    pub closed spec fn info_spec(self) -> FbInfo {
        self.info
    }

    /// The session is sound.
    pub open spec fn wf(self) -> bool {
        self.session().wf()
    }

    /// A fresh client over the given control endpoint, with zeroed
    /// display information.
    pub fn new(endpoint: Endpoint) -> (r: FbClient)
        ensures
            r.wf(),
            r.session().state() == SessionState::Uninitialized,
            r.session().control() == endpoint,
            r.info_spec() == (FbInfo {
                width: 0,
                height: 0,
                pitch: 0,
                format: 0,
                bpp: 0,
                paddr: 0,
                size: 0,
            }),
    {
        FbClient {
            session: Session::new(endpoint, FB_PROTO),
            info: FbInfo { width: 0, height: 0, pitch: 0, format: 0, bpp: 0, paddr: 0, size: 0 },
        }
    }

    /// The control request asking for display information.
    pub fn get_info_request(&self) -> (r: ControlRequest)
        ensures
            r.tag == (MsgTag { protocol: FB_PROTO, opcode: fb::GET_INFO, flags: MSG_FLAG_NONE }),
    {
        ControlRequest {
            tag: MsgTag::new(FB_PROTO, fb::GET_INFO, MSG_FLAG_NONE),
            mrs: crate::protocol::empty_mrs(),
            buffer: Vec::new(),
            cap_transfer: None,
            recv_window: None,
        }
    }

    /// Caches the display information of the reply registers; a rejected
    /// reply caches the zeroed record, as an unreadable reply would.
    pub fn apply_info_reply(&mut self, reply: &ControlReply)
        ensures
            final(self).session() == old(self).session(),
            reply.ok ==> final(self).info_spec() == (FbInfo {
                width: reply.mrs[0] as u32,
                height: reply.mrs[1] as u32,
                pitch: reply.mrs[2] as u32,
                format: reply.mrs[3] as u32,
                bpp: reply.mrs[4] as u32,
                paddr: reply.mrs[5] as usize,
                size: reply.mrs[6] as usize,
            }),
            !reply.ok ==> final(self).info_spec() == (FbInfo {
                width: 0,
                height: 0,
                pitch: 0,
                format: 0,
                bpp: 0,
                paddr: 0,
                size: 0,
            }),
    {
        if reply.ok {
            self.info = FbInfo {
                width: reply.mrs[0] as u32,
                height: reply.mrs[1] as u32,
                pitch: reply.mrs[2] as u32,
                format: reply.mrs[3] as u32,
                bpp: reply.mrs[4] as u32,
                paddr: reply.mrs[5] as usize,
                size: reply.mrs[6] as usize,
            };
        } else {
            self.info = FbInfo { width: 0, height: 0, pitch: 0, format: 0, bpp: 0, paddr: 0, size: 0 };
        }
    }

    /// The cached display information.
    pub fn info(&self) -> (r: FbInfo)
        ensures
            r == self.info_spec(),
    {
        self.info
    }

    /// The cached display information, as the driver trait hands it out.
    pub fn get_info(&self) -> (r: FbInfo)
        ensures
            r == self.info_spec(),
    {
        self.info
    }

    /// The control request flushing one rectangle.
    pub fn flush_request(&self, x: u32, y: u32, w: u32, h: u32) -> (r: ControlRequest)
        ensures
            r.tag == (MsgTag { protocol: FB_PROTO, opcode: fb::FLUSH, flags: MSG_FLAG_NONE }),
            r.mrs[0] == x as u64,
            r.mrs[1] == y as u64,
            r.mrs[2] == w as u64,
            r.mrs[3] == h as u64,
    {
        ControlRequest {
            tag: MsgTag::new(FB_PROTO, fb::FLUSH, MSG_FLAG_NONE),
            mrs: [x as u64, y as u64, w as u64, h as u64, 0u64, 0u64, 0u64, 0u64],
            buffer: Vec::new(),
            cap_transfer: None,
            recv_window: None,
        }
    }
}

} // verus!
