//! The ACPI client: firmware method evaluation, with the method path and
//! its arguments framed into the inline message buffer and the result
//! list framed back out.

use vstd::prelude::*;
use vstd::bytes::{spec_u32_to_le_bytes, u32_to_le_bytes};
use crate::caps::Endpoint;
use crate::codec::{decode_u64_list, encode_u64_list, u64s_bytes};
use crate::error::Error;
use crate::protocol::{acpi, ControlReply, ControlRequest, MsgTag, ACPI_PROTO, MSG_FLAG_HAS_BUFFER};
use crate::session::{Session, SessionState};

verus! {

/// The framed evaluation payload: the path length, the path bytes, then
/// the count-prefixed argument list.
pub open spec fn eval_payload(path: Seq<u8>, args: Seq<u64>) -> Seq<u8> {
    spec_u32_to_le_bytes(path.len() as u32) + path + spec_u32_to_le_bytes(args.len() as u32)
        + u64s_bytes(args)
}

/// One client of the ACPI service.
pub struct AcpiClient {
    session: Session,
}

impl AcpiClient {
    /// The session under this client.
    pub closed spec fn session(self) -> Session {
        self.session
    }

    /// The session is sound.
    pub open spec fn wf(self) -> bool {
        self.session().wf()
    }

    /// A fresh client over the given control endpoint.
    pub fn new(endpoint: Endpoint) -> (r: AcpiClient)
        ensures
            r.wf(),
            r.session().state() == SessionState::Uninitialized,
            r.session().control() == endpoint,
    {
        AcpiClient { session: Session::new(endpoint, ACPI_PROTO) }
    }

    /// The control request evaluating one firmware method: the path bytes
    /// and the arguments travel framed in the inline buffer. Rejects a
    /// path or argument list too long to frame.
    pub fn evaluate_method_request(&self, path: &Vec<u8>, args: &Vec<u64>) -> (r: Result<
        ControlRequest,
        Error,
    >)
        ensures
            path@.len() > u32::MAX || args@.len() > u32::MAX ==> r is Err && r->Err_0
                == Error::InvalidArgs,
            path@.len() <= u32::MAX && args@.len() <= u32::MAX ==> {
                &&& r is Ok
                &&& r->Ok_0.tag == (MsgTag {
                    protocol: ACPI_PROTO,
                    opcode: acpi::EVAL_METHOD,
                    flags: MSG_FLAG_HAS_BUFFER,
                })
                &&& r->Ok_0.buffer@ == eval_payload(path@, args@)
                &&& r->Ok_0.cap_transfer == None::<u64>
                &&& r->Ok_0.recv_window == None::<u64>
            },
    {
        if path.len() > u32::MAX as usize || args.len() > u32::MAX as usize {
            return Err(Error::InvalidArgs);
        }
        let mut buffer: Vec<u8> = u32_to_le_bytes(path.len() as u32);
        let ghost after_len = buffer@;
        buffer.extend_from_slice(path.as_slice());
        proof {
            assert(buffer@ =~= after_len + path@);
        }
        let mut tail: Vec<u8> = encode_u64_list(args);
        buffer.append(&mut tail);
        proof {
            assert(buffer@ =~= eval_payload(path@, args@));
        }
        Ok(
            ControlRequest {
                tag: MsgTag::new(ACPI_PROTO, acpi::EVAL_METHOD, MSG_FLAG_HAS_BUFFER),
                mrs: crate::protocol::empty_mrs(),
                buffer,
                cap_transfer: None,
                recv_window: None,
            },
        )
    }

    /// The result values of an evaluation reply: a rejected reply is the
    /// remote's failure, and a malformed result frame an argument error.
    pub fn parse_eval_reply(&self, reply: &ControlReply) -> (r: Result<Vec<u64>, Error>)
        ensures
            !reply.ok ==> r is Err && r->Err_0 == Error::Generic,
            reply.ok ==> match r {
                Ok(v) => {
                    &&& reply.buffer@.len() == 4 + 8 * v@.len()
                    &&& forall|k: int|
                        0 <= k < v@.len() ==> v@[k]
                            == vstd::bytes::spec_u64_from_le_bytes(
                            reply.buffer@.subrange(4 + 8 * k, 12 + 8 * k),
                        )
                },
                Err(e) => e == Error::InvalidArgs,
            },
    {
        if !reply.ok {
            return Err(Error::Generic);
        }
        decode_u64_list(&reply.buffer)
    }
}

} // verus!
