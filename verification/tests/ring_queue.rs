use driver_ring::error::Error;
use driver_ring::ring::{
    check_pow2, required_region_size, Cqe, IoRing, RingQueue, Sqe, CQE_SIZE, HEADER_SIZE, SQE_SIZE,
};

fn sqe_with_id(id: u64) -> Sqe {
    Sqe { opcode: 1, flags: 0, off: 0, addr: 0, len: 0, user_data: id }
}

#[test]
fn pow2_check_accepts_powers_only() {
    assert!(check_pow2(1));
    assert!(check_pow2(2));
    assert!(check_pow2(8));
    assert!(check_pow2(1024));
    assert!(!check_pow2(0));
    assert!(!check_pow2(3));
    assert!(!check_pow2(6));
    assert!(!check_pow2(1000));
}

#[test]
fn queue_rejects_non_power_of_two_capacity() {
    let q = RingQueue::<Sqe>::new(3, Sqe::default());
    assert!(matches!(q, Err(Error::InvalidArgs)));
    let q = RingQueue::<Sqe>::new(0, Sqe::default());
    assert!(matches!(q, Err(Error::InvalidArgs)));
}

#[test]
fn fifo_order_is_kept() {
    let mut q = RingQueue::<Sqe>::new(8, Sqe::default()).unwrap();
    for i in 0..5u64 {
        q.push(sqe_with_id(i)).unwrap();
    }
    for i in 0..5u64 {
        let e = q.pop().unwrap();
        assert_eq!(e.user_data, i);
    }
    assert!(q.pop().is_none());
}

#[test]
fn fifo_order_survives_wrap_around() {
    let mut q = RingQueue::<Sqe>::new(4, Sqe::default()).unwrap();
    // Cycle well past the capacity so the slot indices wrap repeatedly.
    let mut next_push: u64 = 0;
    let mut next_pop: u64 = 0;
    for _ in 0..3 {
        while next_push < next_pop + 4 {
            q.push(sqe_with_id(next_push)).unwrap();
            next_push += 1;
        }
        while next_pop < next_push {
            assert_eq!(q.pop().unwrap().user_data, next_pop);
            next_pop += 1;
        }
    }
    assert_eq!(next_push, 12);
}

#[test]
fn push_onto_full_queue_returns_full_without_mutation() {
    let mut q = RingQueue::<Sqe>::new(2, Sqe::default()).unwrap();
    q.push(sqe_with_id(10)).unwrap();
    q.push(sqe_with_id(11)).unwrap();
    assert_eq!(q.push(sqe_with_id(12)), Err(Error::Full));
    assert_eq!(q.occupancy(), 2);
    // The refused entry left no trace: the queue still pops 10, 11.
    assert_eq!(q.pop().unwrap().user_data, 10);
    assert_eq!(q.pop().unwrap().user_data, 11);
    assert!(q.pop().is_none());
}

#[test]
fn pop_from_empty_queue_returns_none_without_mutation() {
    let mut q = RingQueue::<Cqe>::new(4, Cqe::default()).unwrap();
    assert!(q.pop().is_none());
    assert_eq!(q.occupancy(), 0);
    q.push(Cqe { user_data: 3, res: 0, flags: 0 }).unwrap();
    assert_eq!(q.pop().unwrap().user_data, 3);
    assert!(q.pop().is_none());
}

#[test]
fn occupancy_never_exceeds_capacity() {
    let mut q = RingQueue::<Sqe>::new(4, Sqe::default()).unwrap();
    for round in 0..20u64 {
        match q.push(sqe_with_id(round)) {
            Ok(()) => {}
            Err(Error::Full) => {
                assert_eq!(q.occupancy(), 4);
                q.pop().unwrap();
            }
            Err(e) => panic!("unexpected error {:?}", e),
        }
        assert!(q.occupancy() <= 4);
    }
}

#[test]
fn ring_pair_rejects_bad_capacities() {
    assert!(matches!(IoRing::new(3, 8), Err(Error::InvalidArgs)));
    assert!(matches!(IoRing::new(8, 0), Err(Error::InvalidArgs)));
    assert!(IoRing::new(8, 8).is_ok());
}

#[test]
fn ring_pair_queues_are_independent() {
    let mut ring = IoRing::new(4, 4).unwrap();
    ring.push_sqe(sqe_with_id(1)).unwrap();
    ring.push_cqe(Cqe { user_data: 2, res: 0, flags: 0 }).unwrap();
    assert_eq!(ring.pop_cqe().unwrap().user_data, 2);
    assert_eq!(ring.pop_sqe().unwrap().user_data, 1);
    assert!(ring.pop_sqe().is_none());
    assert!(ring.pop_cqe().is_none());
}

#[test]
fn fullness_tests_track_both_queues() {
    let mut ring = IoRing::new(1, 1).unwrap();
    assert!(!ring.sq_is_full());
    assert!(!ring.cq_is_full());
    ring.push_sqe(sqe_with_id(1)).unwrap();
    ring.push_cqe(Cqe { user_data: 1, res: 0, flags: 0 }).unwrap();
    assert!(ring.sq_is_full());
    assert!(ring.cq_is_full());
    assert_eq!(ring.push_sqe(sqe_with_id(2)), Err(Error::Full));
}

#[test]
fn region_size_formula() {
    assert_eq!(HEADER_SIZE, 64);
    assert_eq!(SQE_SIZE, 64);
    assert_eq!(CQE_SIZE, 16);
    assert_eq!(required_region_size(8, 8), 64 + 8 * 64 + 8 * 16);
    assert_eq!(required_region_size(1, 1), 64 + 64 + 16);
}
