use driver_ring::caps::Endpoint;
use driver_ring::error::Error;
use driver_ring::protocol::block;
use driver_ring::ring::IoRing;
use driver_ring::transport::{IoRingClient, IoRingServer};

#[test]
fn eight_submissions_completed_in_reverse_all_match() {
    // A ring with submission capacity 8 and completion capacity 8; eight
    // entries with correlation ids 1000..=1007; the server consumes them in
    // order and completes them in reverse; the client still pairs every
    // completion with its issuer.
    let mut ring = IoRing::new(8, 8).unwrap();
    let mut client = IoRingClient::new();
    let server = IoRingServer::new();

    for i in 0..8u64 {
        let sqe = block::sqe_read(i, 0, 512, 1000 + i);
        client.submit(&mut ring, sqe).unwrap();
    }

    let mut consumed = Vec::new();
    while let Some(sqe) = server.next_request(&mut ring) {
        consumed.push(sqe);
    }
    assert_eq!(consumed.len(), 8);
    for (i, sqe) in consumed.iter().enumerate() {
        assert_eq!(sqe.user_data, 1000 + i as u64);
    }

    for sqe in consumed.iter().rev() {
        server.complete(&mut ring, sqe.user_data, 512).unwrap();
    }

    for i in 0..8u64 {
        assert_eq!(client.take_completion(&mut ring, 1000 + i), Some(512));
    }
    for i in 0..8u64 {
        assert_eq!(client.take_completion(&mut ring, 1000 + i), None);
    }
}

#[test]
fn submit_to_full_queue_is_backpressure() {
    let mut ring = IoRing::new(2, 2).unwrap();
    let client = IoRingClient::new();
    client.submit(&mut ring, block::sqe_sync(1)).unwrap();
    client.submit(&mut ring, block::sqe_sync(2)).unwrap();
    assert_eq!(client.submit(&mut ring, block::sqe_sync(3)), Err(Error::OutOfMemory));
}

#[test]
fn server_never_consumes_when_completion_queue_is_full() {
    let mut ring = IoRing::new(2, 1).unwrap();
    let mut client = IoRingClient::new();
    let server = IoRingServer::new();

    client.submit(&mut ring, block::sqe_sync(41)).unwrap();
    client.submit(&mut ring, block::sqe_sync(42)).unwrap();

    assert_eq!(server.serve_next(&mut ring, 0).unwrap(), Some(41));
    // The completion queue is now full: the server must refuse rather than
    // consume a submission whose completion it could not post.
    assert_eq!(server.serve_next(&mut ring, 0), Err(Error::OutOfMemory));
    assert_eq!(client.take_completion(&mut ring, 41), Some(0));
    // With room again, the second submission is served.
    assert_eq!(server.serve_next(&mut ring, -5).unwrap(), Some(42));
    assert_eq!(client.take_completion(&mut ring, 42), Some(-5));
}

#[test]
fn serve_next_on_empty_queue_finds_nothing() {
    let mut ring = IoRing::new(4, 4).unwrap();
    let server = IoRingServer::new();
    assert_eq!(server.serve_next(&mut ring, 0).unwrap(), None);
}

#[test]
fn exactly_one_completion_per_consumed_submission() {
    let mut ring = IoRing::new(8, 8).unwrap();
    let mut client = IoRingClient::new();
    let server = IoRingServer::new();

    for i in 0..4u64 {
        client.submit(&mut ring, block::sqe_sync(100 + i)).unwrap();
    }
    // Two operations fail (negative result), two succeed: every consumed
    // submission still gets exactly one completion.
    assert_eq!(server.serve_next(&mut ring, 0).unwrap(), Some(100));
    assert_eq!(server.serve_next(&mut ring, -1).unwrap(), Some(101));
    assert_eq!(server.serve_next(&mut ring, 7).unwrap(), Some(102));
    assert_eq!(server.serve_next(&mut ring, -2).unwrap(), Some(103));

    assert_eq!(client.take_completion(&mut ring, 100), Some(0));
    assert_eq!(client.take_completion(&mut ring, 101), Some(-1));
    assert_eq!(client.take_completion(&mut ring, 102), Some(7));
    assert_eq!(client.take_completion(&mut ring, 103), Some(-2));
    for i in 0..4u64 {
        assert_eq!(client.take_completion(&mut ring, 100 + i), None);
    }
}

#[test]
fn unclaimed_completions_are_parked_not_lost() {
    let mut ring = IoRing::new(4, 4).unwrap();
    let mut client = IoRingClient::new();
    let server = IoRingServer::new();

    client.submit(&mut ring, block::sqe_sync(1)).unwrap();
    client.submit(&mut ring, block::sqe_sync(2)).unwrap();
    assert_eq!(server.serve_next(&mut ring, 10).unwrap(), Some(1));
    assert_eq!(server.serve_next(&mut ring, 20).unwrap(), Some(2));

    // Claiming the second first drains the first into the local park.
    assert_eq!(client.take_completion(&mut ring, 2), Some(20));
    assert_eq!(client.take_completion(&mut ring, 1), Some(10));
}

#[test]
fn peek_returns_oldest_completion_first() {
    let mut ring = IoRing::new(4, 4).unwrap();
    let mut client = IoRingClient::new();
    let server = IoRingServer::new();

    client.submit(&mut ring, block::sqe_sync(5)).unwrap();
    client.submit(&mut ring, block::sqe_sync(6)).unwrap();
    assert_eq!(server.serve_next(&mut ring, 0).unwrap(), Some(5));
    assert_eq!(server.serve_next(&mut ring, 0).unwrap(), Some(6));

    // A mismatched claim parks both; peek then hands them out oldest first.
    assert_eq!(client.take_completion(&mut ring, 99), None);
    assert_eq!(client.peek_completion(&mut ring).unwrap().user_data, 5);
    assert_eq!(client.peek_completion(&mut ring).unwrap().user_data, 6);
    assert!(client.peek_completion(&mut ring).is_none());
}

#[test]
fn notify_endpoints_are_recorded() {
    let mut client = IoRingClient::new();
    let mut server = IoRingServer::new();
    assert!(client.notify_endpoint().is_none());
    assert!(server.notify_endpoint().is_none());
    client.set_server_notify(Endpoint { cap: 7 });
    server.set_client_notify(Endpoint { cap: 9 });
    assert_eq!(client.notify_endpoint().unwrap().cap, 7);
    assert_eq!(server.notify_endpoint().unwrap().cap, 9);
}
