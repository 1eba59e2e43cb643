use driver_ring::caps::{Endpoint, MemoryRegionHandle};
use driver_ring::client::block::BlockClient;
use driver_ring::error::Error;
use driver_ring::protocol::{block, ControlReply, BLOCK_PROTO, MSG_FLAG_NONE};
use driver_ring::ring::IoRing;
use driver_ring::session::{BufferSetupReply, RingSetupReply, SessionState};
use driver_ring::shm::SharedBufferRegion;
use driver_ring::transport::IoRingServer;

fn reply_with_value(value: u64) -> ControlReply {
    ControlReply { ok: true, mrs: [value, 0, 0, 0, 0, 0, 0, 0], buffer: Vec::new(), cap: None }
}

fn rejected_reply() -> ControlReply {
    ControlReply { ok: false, mrs: [0; 8], buffer: Vec::new(), cap: None }
}

/// Runs the whole handshake and caches a 512-byte block size over 2048
/// sectors.
fn connected_client() -> BlockClient {
    let mut client = BlockClient::new(Endpoint { cap: 3 });
    let session = client.session_mut();
    session
        .ring_setup_request(block::SETUP_RING, 8, 8, Endpoint { cap: 6 }, 13)
        .unwrap();
    session
        .apply_ring_setup(&RingSetupReply {
            ok: true,
            handle: Some(MemoryRegionHandle { cap: 13 }),
            sq_entries: 8,
            cq_entries: 8,
            region_size: 64 + 8 * 64 + 8 * 16,
        })
        .unwrap();
    session
        .apply_buffer_setup(&BufferSetupReply {
            ok: true,
            handle: Some(MemoryRegionHandle { cap: 14 }),
            vaddr: 0x8000_0000,
            size: 4096,
            paddr: 0,
        })
        .unwrap();
    session.complete_handshake().unwrap();
    client.init(&reply_with_value(512), &reply_with_value(2048)).unwrap();
    client
}

#[test]
fn init_caches_geometry_from_replies() {
    let mut client = BlockClient::new(Endpoint { cap: 3 });
    assert_eq!(client.block_size_value(), 0);
    client.init(&reply_with_value(512), &reply_with_value(2048)).unwrap();
    assert_eq!(client.block_size_value(), 512);
    assert_eq!(client.total_sectors_value(), 2048);
}

#[test]
fn init_propagates_rejections_in_call_order() {
    let mut client = BlockClient::new(Endpoint { cap: 3 });
    assert_eq!(client.init(&rejected_reply(), &reply_with_value(9)), Err(Error::Generic));
    assert_eq!(client.block_size_value(), 0);
    // The first call succeeded, so its fact is cached even though the
    // second was rejected.
    assert_eq!(client.init(&reply_with_value(512), &rejected_reply()), Err(Error::Generic));
    assert_eq!(client.block_size_value(), 512);
    assert_eq!(client.total_sectors_value(), 0);
}

#[test]
fn geometry_requests_carry_the_block_protocol() {
    let client = BlockClient::new(Endpoint { cap: 3 });
    let bs = client.block_size_request();
    assert_eq!(bs.tag.protocol, BLOCK_PROTO);
    assert_eq!(bs.tag.opcode, block::GET_BLOCK_SIZE);
    assert_eq!(bs.tag.flags, MSG_FLAG_NONE);
    let cap = client.capacity_request();
    assert_eq!(cap.tag.opcode, block::GET_CAPACITY);
    assert_eq!(client.endpoint().cap, 3);
}

#[test]
fn operations_before_handshake_are_refused() {
    let mut client = BlockClient::new(Endpoint { cap: 3 });
    client.init(&reply_with_value(512), &reply_with_value(2048)).unwrap();
    let mut ring = IoRing::new(8, 8).unwrap();
    let shm = SharedBufferRegion::new(4096, 0x8000_0000, 0);
    assert_eq!(
        client.begin_read_at(&mut ring, &shm, 0, 512),
        Err(Error::NotInitialized)
    );
}

#[test]
fn misaligned_requests_are_refused() {
    let mut client = connected_client();
    let mut ring = IoRing::new(8, 8).unwrap();
    let shm = SharedBufferRegion::new(4096, 0x8000_0000, 0);
    assert_eq!(client.begin_read_at(&mut ring, &shm, 100, 512), Err(Error::InvalidArgs));
    assert_eq!(client.begin_read_at(&mut ring, &shm, 512, 100), Err(Error::InvalidArgs));
    assert_eq!(client.begin_read_shm(&mut ring, 100, 512, 0), Err(Error::InvalidArgs));
}

#[test]
fn oversize_read_fails_before_any_submission() {
    let mut client = connected_client();
    let mut ring = IoRing::new(8, 8).unwrap();
    let shm = SharedBufferRegion::new(4096, 0x8000_0000, 0);
    // 8192 bytes against a 4096-byte region: refused locally, and the
    // submission queue stays empty.
    assert_eq!(client.begin_read_at(&mut ring, &shm, 0, 8192), Err(Error::InvalidArgs));
    assert!(ring.pop_sqe().is_none());
}

#[test]
fn write_then_read_round_trip() {
    let mut client = connected_client();
    let mut ring = IoRing::new(8, 8).unwrap();
    let mut shm = SharedBufferRegion::new(4096, 0x8000_0000, 0);
    let server = IoRingServer::new();
    let payload: Vec<u8> = (0..=255u8).cycle().take(512).collect();

    // Write: the payload is staged in the shared buffer, the entry is
    // submitted, the server consumes and completes it.
    let write_id = client
        .begin_write_at(&mut ring, &mut shm, 0, 512, &payload)
        .unwrap();
    let sqe = ring.pop_sqe().unwrap();
    assert_eq!(sqe.opcode, driver_ring::protocol::IOURING_OP_WRITE);
    assert_eq!(sqe.addr, 0x8000_0000);
    assert_eq!(sqe.len, 512);
    assert_eq!(sqe.user_data, write_id);
    server.complete(&mut ring, write_id, 512).unwrap();
    assert_eq!(client.poll_completion(&mut ring, write_id), Ok(true));

    // Read the same range back; the in-memory device leaves the shared
    // buffer holding exactly what the write staged.
    let read_id = client.begin_read_at(&mut ring, &shm, 0, 512).unwrap();
    assert_ne!(read_id, write_id);
    assert_eq!(server.serve_next(&mut ring, 512).unwrap(), Some(read_id));
    assert_eq!(client.poll_completion(&mut ring, read_id), Ok(true));
    let mut out = vec![0u8; 512];
    assert_eq!(client.copy_read_payload(&shm, 512, &mut out), 512);
    assert_eq!(out, payload);
}

#[test]
fn device_failure_surfaces_as_generic() {
    let mut client = connected_client();
    let mut ring = IoRing::new(8, 8).unwrap();
    let shm = SharedBufferRegion::new(4096, 0x8000_0000, 0);
    let server = IoRingServer::new();
    let id = client.begin_read_at(&mut ring, &shm, 0, 512).unwrap();
    assert_eq!(server.serve_next(&mut ring, -5).unwrap(), Some(id));
    assert_eq!(client.poll_completion(&mut ring, id), Err(Error::Generic));
}

#[test]
fn pending_poll_reports_nothing_yet() {
    let mut client = connected_client();
    let mut ring = IoRing::new(8, 8).unwrap();
    let shm = SharedBufferRegion::new(4096, 0x8000_0000, 0);
    let id = client.begin_read_at(&mut ring, &shm, 0, 512).unwrap();
    // The server has not served yet: the caller should block and retry.
    assert_eq!(client.poll_completion(&mut ring, id), Ok(false));
}

#[test]
fn whole_sector_helpers_scale_by_block_size() {
    let mut client = connected_client();
    let mut ring = IoRing::new(8, 8).unwrap();
    let mut shm = SharedBufferRegion::new(4096, 0x8000_0000, 0);
    let payload = vec![9u8; 1024];
    let id = client
        .begin_write_blocks(&mut ring, &mut shm, 2, 2, &payload)
        .unwrap();
    let sqe = ring.pop_sqe().unwrap();
    assert_eq!(sqe.off, 1024); // sector 2 of 512-byte blocks
    assert_eq!(sqe.len, 1024); // 2 blocks
    assert_eq!(sqe.user_data, id);

    let id = client.begin_read_blocks(&mut ring, &shm, 4, 1).unwrap();
    let sqe = ring.pop_sqe().unwrap();
    assert_eq!(sqe.off, 2048);
    assert_eq!(sqe.len, 512);
    assert_eq!(sqe.user_data, id);

    // Scaling that overflows the sector arithmetic is refused.
    assert_eq!(
        client.begin_read_blocks(&mut ring, &shm, u64::MAX / 2, 1),
        Err(Error::InvalidArgs)
    );
}
