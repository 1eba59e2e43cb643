//! The ring region: a pair of single-producer / single-consumer queues
//! (submission and completion) with power-of-two capacities and monotone
//! producer / consumer counters, as they would sit in a shared memory region
//! mapped by both a client and a device server.

use vstd::prelude::*;
use crate::error::Error;

verus! {

/// Whether `n` is a power of two.
pub open spec fn is_pow2(n: nat) -> bool
    decreases n,
{
    if n == 0 {
        false
    } else if n == 1 {
        true
    } else {
        n % 2 == 0 && is_pow2(n / 2)
    }
}

/// Runtime power-of-two test, equivalent to [`is_pow2`].
pub fn check_pow2(n: u32) -> (r: bool)
    ensures
        r == is_pow2(n as nat),
{
    if n == 0 {
        return false;
    }
    let mut m: u32 = n;
    while m > 1
        invariant
            1 <= m,
            is_pow2(n as nat) == is_pow2(m as nat),
        decreases m,
    {
        if m % 2 != 0 {
            return false;
        }
        m = m / 2;
    }
    true
}

/// A submission queue entry: one requested device operation, immutable once
/// submitted. `addr` is a byte address inside the shared data buffer,
/// expressed in the mapping of the party that will dereference it.
#[derive(Clone, Copy, Debug, PartialEq, Eq, Structural)]
pub struct Sqe {
    /// Device-defined operation code (read, write, send, recv, sync, ...).
    pub opcode: u8,
    /// Device-defined flag bits.
    pub flags: u32,
    /// Byte or sector offset; its meaning is device-defined.
    pub off: u64,
    /// Byte address of the payload inside the shared data buffer.
    pub addr: u64,
    /// Payload length in bytes.
    pub len: u32,
    /// Caller-chosen correlation id, unique among outstanding operations of
    /// one session.
    pub user_data: u64,
}

impl Default for Sqe {
    /// The all-zero entry.
    fn default() -> (r: Sqe)
        ensures
            r == (Sqe { opcode: 0, flags: 0, off: 0, addr: 0, len: 0, user_data: 0 }),
    {
        Sqe { opcode: 0, flags: 0, off: 0, addr: 0, len: 0, user_data: 0 }
    }
}

/// A completion queue entry: the outcome of exactly one consumed submission.
#[derive(Clone, Copy, Debug, PartialEq, Eq, Structural)]
pub struct Cqe {
    /// The correlation id copied from the submission this entry completes.
    pub user_data: u64,
    /// Non-negative on success (operation-defined, e.g. bytes transferred);
    /// negative on error.
    pub res: i32,
    /// Flag bits.
    pub flags: u32,
}

impl Default for Cqe {
    /// The all-zero entry.
    fn default() -> (r: Cqe)
        ensures
            r == (Cqe { user_data: 0, res: 0, flags: 0 }),
    {
        Cqe { user_data: 0, res: 0, flags: 0 }
    }
}

/// One single-producer / single-consumer circular queue.
///
/// The producer and consumer indices increase monotonically and are reduced
/// modulo the capacity only when an entry slot is addressed, exactly as the
/// indices in the shared ring header behave.
pub struct RingQueue<T> {
    entries: Vec<T>,
    capacity: u32,
    producer: u64,
    consumer: u64,
}

impl<T: Copy> RingQueue<T> {
    /// The configured capacity.
    pub closed spec fn capacity(self) -> u32 {
        self.capacity
    }

    /// The monotone producer index.
    pub closed spec fn producer_index(self) -> u64 {
        self.producer
    }

    /// The monotone consumer index.
    pub closed spec fn consumer_index(self) -> u64 {
        self.consumer
    }

    /// Well-formedness: the backing storage matches the capacity, the
    /// capacity is a nonzero power of two, and the occupancy
    /// `producer - consumer` lies between zero and the capacity.
    pub closed spec fn wf(self) -> bool {
        &&& self.entries@.len() == self.capacity as nat
        &&& 0 < self.capacity
        &&& is_pow2(self.capacity as nat)
        &&& self.consumer <= self.producer
        &&& self.producer - self.consumer <= self.capacity
    }

    /// The queued entries, oldest first.
    pub closed spec fn contents(self) -> Seq<T> {
        Seq::new(
            (self.producer - self.consumer) as nat,
            |i: int| self.entries@[(self.consumer + i) % (self.capacity as int)],
        )
    }

    /// Number of queued entries.
    pub open spec fn len(self) -> nat {
        self.contents().len()
    }

    /// Whether the queue is at capacity.
    pub open spec fn is_full(self) -> bool {
        self.len() == self.capacity() as nat
    }

    /// Whether the queue holds no entry.
    pub open spec fn is_empty(self) -> bool {
        self.len() == 0
    }

    /// The capacity invariant: a well-formed queue never holds more entries
    /// than its capacity, and its occupancy never goes negative (the
    /// consumer index never passes the producer index).
    pub proof fn lemma_capacity_invariant(self)
        requires
            self.wf(),
        ensures
            self.consumer_index() <= self.producer_index(),
            self.producer_index() - self.consumer_index() <= self.capacity(),
            self.len() == self.producer_index() - self.consumer_index(),
            self.len() <= self.capacity() as nat,
    {
    }

    /// Creates an empty queue of the given capacity, every slot filled with
    /// `fill`. Rejects a capacity that is not a power of two.
    pub fn new(capacity: u32, fill: T) -> (r: Result<RingQueue<T>, Error>)
        ensures
            match r {
                Ok(q) => {
                    &&& is_pow2(capacity as nat)
                    &&& q.wf()
                    &&& q.capacity() == capacity
                    &&& q.producer_index() == 0
                    &&& q.consumer_index() == 0
                    &&& q.contents() == Seq::<T>::empty()
                },
                Err(e) => e == Error::InvalidArgs && !is_pow2(capacity as nat),
            },
    {
        if !check_pow2(capacity) {
            return Err(Error::InvalidArgs);
        }
        let mut entries: Vec<T> = Vec::new();
        let mut i: u32 = 0;
        while i < capacity
            invariant
                i <= capacity,
                entries@.len() == i as nat,
            decreases capacity - i,
        {
            entries.push(fill);
            i = i + 1;
        }
        let q = RingQueue { entries, capacity, producer: 0u64, consumer: 0u64 };
        proof {
            assert(q.contents() =~= Seq::<T>::empty());
        }
        Ok(q)
    }

    /// Runtime read-out of the configured capacity.
    pub fn capacity_value(&self) -> (r: u32)
        ensures
            r == self.capacity(),
    {
        self.capacity
    }

    /// Runtime read-out of the producer index.
    pub fn producer_value(&self) -> (r: u64)
        ensures
            r == self.producer_index(),
    {
        self.producer
    }

    /// Runtime read-out of the consumer index.
    pub fn consumer_value(&self) -> (r: u64)
        ensures
            r == self.consumer_index(),
    {
        self.consumer
    }

    /// Runtime read-out of the occupancy.
    pub fn occupancy(&self) -> (r: u64)
        requires
            self.wf(),
        ensures
            r as nat == self.len(),
    {
        self.producer - self.consumer
    }

    /// Runtime test for a queue at capacity.
    pub fn at_capacity(&self) -> (r: bool)
        requires
            self.wf(),
        ensures
            r == self.is_full(),
    {
        self.producer - self.consumer == self.capacity as u64
    }

    /// Runtime test for a queue with no entry.
    pub fn no_entries(&self) -> (r: bool)
        requires
            self.wf(),
        ensures
            r == self.is_empty(),
    {
        self.producer == self.consumer
    }

    /// Appends `entry` at the tail. Fails with [`Error::Full`], leaving the
    /// queue untouched, exactly when the queue is at capacity.
    pub fn push(&mut self, entry: T) -> (r: Result<(), Error>)
        requires
            old(self).wf(),
            old(self).producer_index() < u64::MAX,
        ensures
            final(self).wf(),
            final(self).capacity() == old(self).capacity(),
            final(self).consumer_index() == old(self).consumer_index(),
            old(self).is_full() ==> {
                &&& r == Err::<(), Error>(Error::Full)
                &&& *final(self) == *old(self)
            },
            !old(self).is_full() ==> {
                &&& r == Ok::<(), Error>(())
                &&& final(self).producer_index() == old(self).producer_index() + 1
                &&& final(self).contents() == old(self).contents().push(entry)
            },
    {
        if self.producer - self.consumer == self.capacity as u64 {
            return Err(Error::Full);
        }
        let idx: usize = (self.producer % (self.capacity as u64)) as usize;
        self.entries.set(idx, entry);
        self.producer = self.producer + 1;
        proof {
            let c = old(self).consumer as int;
            let p = old(self).producer as int;
            let m = old(self).capacity as int;
            assert forall|i: int| 0 <= i < p - c implies #[trigger] ((c + i) % m) != p % m by {
                lemma_mod_distinct(c + i, p, m);
            }
            assert(self.contents() =~= old(self).contents().push(entry));
        }
        Ok(())
    }

    /// Removes and returns the oldest entry, or returns `None`, leaving the
    /// queue untouched, exactly when the queue is empty.
    pub fn pop(&mut self) -> (r: Option<T>)
        requires
            old(self).wf(),
        ensures
            final(self).wf(),
            final(self).capacity() == old(self).capacity(),
            final(self).producer_index() == old(self).producer_index(),
            old(self).is_empty() ==> {
                &&& r == None::<T>
                &&& *final(self) == *old(self)
            },
            !old(self).is_empty() ==> {
                &&& r == Some(old(self).contents()[0])
                &&& final(self).consumer_index() == old(self).consumer_index() + 1
                &&& final(self).contents() == old(self).contents().drop_first()
            },
    {
        if self.consumer == self.producer {
            return None;
        }
        let idx: usize = (self.consumer % (self.capacity as u64)) as usize;
        let entry: T = self.entries[idx];
        self.consumer = self.consumer + 1;
        proof {
            assert(self.contents() =~= old(self).contents().drop_first());
        }
        Some(entry)
    }
}

/// Size in bytes of the ring region header on the wire.
pub const HEADER_SIZE: u64 = 64;

/// Size in bytes of one encoded submission entry.
pub const SQE_SIZE: u64 = 64;

/// Size in bytes of one encoded completion entry.
pub const CQE_SIZE: u64 = 16;

/// The number of bytes a shared region must offer to hold a ring pair with
/// the given entry counts: the header followed by the submission slots and
/// the completion slots.
pub fn required_region_size(sq_entries: u32, cq_entries: u32) -> (r: u64)
    ensures
        r == HEADER_SIZE + sq_entries * SQE_SIZE + cq_entries * CQE_SIZE,
{
    HEADER_SIZE + (sq_entries as u64) * SQE_SIZE + (cq_entries as u64) * CQE_SIZE
}

/// The ring region: one submission queue and one completion queue sharing a
/// single shared-memory region but otherwise independent. The client
/// produces submissions and consumes completions; the server does the
/// reverse.
pub struct IoRing {
    sq: RingQueue<Sqe>,
    cq: RingQueue<Cqe>,
}

impl IoRing {
    /// The submission queue.
    pub closed spec fn sq(self) -> RingQueue<Sqe> {
        self.sq
    }

    /// The completion queue.
    pub closed spec fn cq(self) -> RingQueue<Cqe> {
        self.cq
    }

    /// Both queues are well-formed.
    pub open spec fn wf(self) -> bool {
        self.sq().wf() && self.cq().wf()
    }

    /// Initializes an empty ring pair. Rejects, as a configuration error,
    /// any entry count that is not a power of two.
    pub fn new(sq_entries: u32, cq_entries: u32) -> (r: Result<IoRing, Error>)
        ensures
            match r {
                Ok(ring) => {
                    &&& is_pow2(sq_entries as nat) && is_pow2(cq_entries as nat)
                    &&& ring.wf()
                    &&& ring.sq().capacity() == sq_entries
                    &&& ring.cq().capacity() == cq_entries
                    &&& ring.sq().contents() == Seq::<Sqe>::empty()
                    &&& ring.cq().contents() == Seq::<Cqe>::empty()
                    &&& ring.sq().producer_index() == 0
                    &&& ring.cq().producer_index() == 0
                },
                Err(e) => {
                    &&& e == Error::InvalidArgs
                    &&& !(is_pow2(sq_entries as nat) && is_pow2(cq_entries as nat))
                },
            },
    {
        let sq = RingQueue::<Sqe>::new(sq_entries, Sqe::default())?;
        let cq = RingQueue::<Cqe>::new(cq_entries, Cqe::default())?;
        Ok(IoRing { sq, cq })
    }

    /// Runtime read-out of the submission queue geometry: capacity,
    /// producer index, consumer index.
    pub fn sq_indices(&self) -> (r: (u32, u64, u64))
        ensures
            r.0 == self.sq().capacity(),
            r.1 == self.sq().producer_index(),
            r.2 == self.sq().consumer_index(),
    {
        (self.sq.capacity_value(), self.sq.producer_value(), self.sq.consumer_value())
    }

    /// Runtime read-out of the completion queue geometry: capacity,
    /// producer index, consumer index.
    pub fn cq_indices(&self) -> (r: (u32, u64, u64))
        ensures
            r.0 == self.cq().capacity(),
            r.1 == self.cq().producer_index(),
            r.2 == self.cq().consumer_index(),
    {
        (self.cq.capacity_value(), self.cq.producer_value(), self.cq.consumer_value())
    }

    /// Runtime test for a full completion queue.
    pub fn cq_is_full(&self) -> (r: bool)
        requires
            self.wf(),
        ensures
            r == self.cq().is_full(),
    {
        self.cq.at_capacity()
    }

    /// Runtime test for a full submission queue.
    pub fn sq_is_full(&self) -> (r: bool)
        requires
            self.wf(),
        ensures
            r == self.sq().is_full(),
    {
        self.sq.at_capacity()
    }

    /// Client side: appends a submission. See [`RingQueue::push`].
    pub fn push_sqe(&mut self, entry: Sqe) -> (r: Result<(), Error>)
        requires
            old(self).wf(),
            old(self).sq().producer_index() < u64::MAX,
        ensures
            final(self).wf(),
            final(self).cq() == old(self).cq(),
            final(self).sq().capacity() == old(self).sq().capacity(),
            final(self).sq().consumer_index() == old(self).sq().consumer_index(),
            old(self).sq().is_full() ==> {
                &&& r == Err::<(), Error>(Error::Full)
                &&& *final(self) == *old(self)
            },
            !old(self).sq().is_full() ==> {
                &&& r == Ok::<(), Error>(())
                &&& final(self).sq().producer_index() == old(self).sq().producer_index() + 1
                &&& final(self).sq().contents() == old(self).sq().contents().push(entry)
            },
    {
        self.sq.push(entry)
    }

    /// Server side: removes the oldest submission. See [`RingQueue::pop`].
    pub fn pop_sqe(&mut self) -> (r: Option<Sqe>)
        requires
            old(self).wf(),
        ensures
            final(self).wf(),
            final(self).cq() == old(self).cq(),
            final(self).sq().capacity() == old(self).sq().capacity(),
            final(self).sq().producer_index() == old(self).sq().producer_index(),
            old(self).sq().is_empty() ==> r == None::<Sqe> && *final(self) == *old(self),
            !old(self).sq().is_empty() ==> {
                &&& r == Some(old(self).sq().contents()[0])
                &&& final(self).sq().consumer_index() == old(self).sq().consumer_index() + 1
                &&& final(self).sq().contents() == old(self).sq().contents().drop_first()
            },
    {
        self.sq.pop()
    }

    /// Server side: appends a completion. See [`RingQueue::push`].
    pub fn push_cqe(&mut self, entry: Cqe) -> (r: Result<(), Error>)
        requires
            old(self).wf(),
            old(self).cq().producer_index() < u64::MAX,
        ensures
            final(self).wf(),
            final(self).sq() == old(self).sq(),
            final(self).cq().capacity() == old(self).cq().capacity(),
            final(self).cq().consumer_index() == old(self).cq().consumer_index(),
            old(self).cq().is_full() ==> {
                &&& r == Err::<(), Error>(Error::Full)
                &&& *final(self) == *old(self)
            },
            !old(self).cq().is_full() ==> {
                &&& r == Ok::<(), Error>(())
                &&& final(self).cq().producer_index() == old(self).cq().producer_index() + 1
                &&& final(self).cq().contents() == old(self).cq().contents().push(entry)
            },
    {
        self.cq.push(entry)
    }

    /// Client side: removes the oldest completion. See [`RingQueue::pop`].
    pub fn pop_cqe(&mut self) -> (r: Option<Cqe>)
        requires
            old(self).wf(),
        ensures
            final(self).wf(),
            final(self).sq() == old(self).sq(),
            final(self).cq().capacity() == old(self).cq().capacity(),
            final(self).cq().producer_index() == old(self).cq().producer_index(),
            old(self).cq().is_empty() ==> r == None::<Cqe> && *final(self) == *old(self),
            !old(self).cq().is_empty() ==> {
                &&& r == Some(old(self).cq().contents()[0])
                &&& final(self).cq().consumer_index() == old(self).cq().consumer_index() + 1
                &&& final(self).cq().contents() == old(self).cq().contents().drop_first()
            },
    {
        self.cq.pop()
    }
}

/// Two indices `a < b` whose distance is below the modulus land in
/// different slots.
proof fn lemma_mod_distinct(a: int, b: int, m: int)
    requires
        0 <= a,
        a < b,
        b - a < m,
    ensures
        a % m != b % m,
{
    vstd::arithmetic::div_mod::lemma_fundamental_div_mod(a, m);
    vstd::arithmetic::div_mod::lemma_fundamental_div_mod(b, m);
    if a % m == b % m {
        let k = b / m - a / m;
        assert(b - a == m * k) by (nonlinear_arith)
            requires
                a == m * (a / m) + a % m,
                b == m * (b / m) + b % m,
                a % m == b % m,
                k == b / m - a / m,
        ;
        assert(false) by (nonlinear_arith)
            requires
                b - a == m * k,
                0 < b - a,
                b - a < m,
        ;
    }
}

} // verus!
