use driver_ring::caps::{Endpoint, MemoryRegionHandle};
use driver_ring::error::Error;
use driver_ring::protocol::{block, BLOCK_PROTO, MSG_FLAG_HAS_CAP};
use driver_ring::session::{BufferSetupReply, RingSetupReply, Session, SessionState};

fn good_ring_reply() -> RingSetupReply {
    RingSetupReply {
        ok: true,
        handle: Some(MemoryRegionHandle { cap: 11 }),
        sq_entries: 8,
        cq_entries: 8,
        region_size: 64 + 8 * 64 + 8 * 16,
    }
}

fn good_buffer_reply() -> BufferSetupReply {
    BufferSetupReply {
        ok: true,
        handle: Some(MemoryRegionHandle { cap: 12 }),
        vaddr: 0x8000_0000,
        size: 4096,
        paddr: 0,
    }
}

#[test]
fn both_phases_in_sequence_reach_active() {
    let mut s = Session::new(Endpoint { cap: 4 }, BLOCK_PROTO);
    assert_eq!(s.current_state(), SessionState::Uninitialized);
    assert!(!s.is_active());

    let req = s
        .ring_setup_request(block::SETUP_RING, 8, 8, Endpoint { cap: 5 }, 11)
        .unwrap();
    assert_eq!(req.tag.protocol, BLOCK_PROTO);
    assert_eq!(req.tag.opcode, block::SETUP_RING);
    assert_eq!(req.tag.flags, MSG_FLAG_HAS_CAP);
    assert_eq!(req.mrs[0], 8);
    assert_eq!(req.mrs[1], 8);
    assert_eq!(req.cap_transfer, Some(5));
    assert_eq!(req.recv_window, Some(11));

    s.apply_ring_setup(&good_ring_reply()).unwrap();
    assert_eq!(s.current_state(), SessionState::RingConfigured);
    assert!(!s.is_active());
    assert_eq!(s.granted_sq_entries(), 8);
    assert_eq!(s.granted_cq_entries(), 8);

    s.apply_buffer_setup(&good_buffer_reply()).unwrap();
    assert_eq!(s.current_state(), SessionState::BufferConfigured);
    assert!(!s.is_active());

    s.complete_handshake().unwrap();
    assert_eq!(s.current_state(), SessionState::Active);
    assert!(s.is_active());
}

#[test]
fn buffer_failure_after_ring_success_never_activates() {
    let mut s = Session::new(Endpoint { cap: 4 }, BLOCK_PROTO);
    s.apply_ring_setup(&good_ring_reply()).unwrap();

    let mut rejected = good_buffer_reply();
    rejected.ok = false;
    assert_eq!(s.apply_buffer_setup(&rejected), Err(Error::Generic));
    assert_eq!(s.current_state(), SessionState::RingConfigured);
    assert!(!s.is_active());
    // The caller cannot skip ahead either.
    assert_eq!(s.complete_handshake(), Err(Error::NotInitialized));
    assert!(!s.is_active());
}

#[test]
fn non_power_of_two_request_is_a_configuration_error() {
    let mut s = Session::new(Endpoint { cap: 4 }, BLOCK_PROTO);
    let r = s.ring_setup_request(block::SETUP_RING, 6, 8, Endpoint { cap: 5 }, 11);
    assert!(matches!(r, Err(Error::InvalidArgs)));
    assert_eq!(s.current_state(), SessionState::Uninitialized);
}

#[test]
fn ring_reply_without_handle_aborts() {
    let mut s = Session::new(Endpoint { cap: 4 }, BLOCK_PROTO);
    let mut reply = good_ring_reply();
    reply.handle = None;
    assert_eq!(s.apply_ring_setup(&reply), Err(Error::Generic));
    assert_eq!(s.current_state(), SessionState::Uninitialized);
}

#[test]
fn ring_reply_with_undersized_region_aborts() {
    let mut s = Session::new(Endpoint { cap: 4 }, BLOCK_PROTO);
    let mut reply = good_ring_reply();
    reply.region_size = 64;
    assert_eq!(s.apply_ring_setup(&reply), Err(Error::InvalidArgs));
    assert_eq!(s.current_state(), SessionState::Uninitialized);
}

#[test]
fn ring_reply_with_non_power_of_two_grant_aborts() {
    let mut s = Session::new(Endpoint { cap: 4 }, BLOCK_PROTO);
    let mut reply = good_ring_reply();
    reply.sq_entries = 7;
    assert_eq!(s.apply_ring_setup(&reply), Err(Error::InvalidArgs));
    assert_eq!(s.current_state(), SessionState::Uninitialized);
}

#[test]
fn buffer_reply_with_misaligned_size_aborts() {
    let mut s = Session::new(Endpoint { cap: 4 }, BLOCK_PROTO);
    s.apply_ring_setup(&good_ring_reply()).unwrap();
    let mut reply = good_buffer_reply();
    reply.size = 1000;
    assert_eq!(s.apply_buffer_setup(&reply), Err(Error::InvalidArgs));
    assert_eq!(s.current_state(), SessionState::RingConfigured);
}

#[test]
fn second_ring_setup_is_refused() {
    let mut s = Session::new(Endpoint { cap: 4 }, BLOCK_PROTO);
    s.apply_ring_setup(&good_ring_reply()).unwrap();
    assert_eq!(s.apply_ring_setup(&good_ring_reply()), Err(Error::InvalidArgs));
    let r = s.ring_setup_request(block::SETUP_RING, 8, 8, Endpoint { cap: 5 }, 11);
    assert!(matches!(r, Err(Error::InvalidArgs)));
}

#[test]
fn client_allocated_buffer_offer_carries_its_geometry() {
    let mut s = Session::new(Endpoint { cap: 4 }, BLOCK_PROTO);
    // Only a ring-configured session may offer a buffer.
    let early = s.buffer_setup_offer(block::SETUP_BUFFER, MemoryRegionHandle { cap: 8 }, 0, 4096, 0);
    assert!(matches!(early, Err(Error::InvalidArgs)));

    s.apply_ring_setup(&good_ring_reply()).unwrap();
    let offer = s
        .buffer_setup_offer(block::SETUP_BUFFER, MemoryRegionHandle { cap: 8 }, 0x9000_0000, 4096, 0x10_0000)
        .unwrap();
    assert_eq!(offer.tag.opcode, block::SETUP_BUFFER);
    assert_eq!(offer.tag.flags, MSG_FLAG_HAS_CAP);
    assert_eq!(offer.mrs[0], 0x9000_0000);
    assert_eq!(offer.mrs[1], 4096);
    assert_eq!(offer.mrs[2], 0x10_0000);
    assert_eq!(offer.cap_transfer, Some(8));
    assert_eq!(offer.recv_window, None);

    let request = s.buffer_setup_request(block::SETUP_BUFFER, 17).unwrap();
    assert_eq!(request.cap_transfer, None);
    assert_eq!(request.recv_window, Some(17));
}

#[test]
fn correlation_ids_start_above_message_labels() {
    let mut s = Session::new(Endpoint { cap: 4 }, BLOCK_PROTO);
    let first = s.fresh_id();
    assert_eq!(first, 0x1000);
    assert_eq!(s.fresh_id(), 0x1001);
}
