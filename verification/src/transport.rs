//! Steady-state ring transport: the client side that submits operations and
//! collects completions, and the server side that consumes submissions and
//! posts exactly one completion per consumed entry.
//!
//! Both sides borrow the shared [`IoRing`] per call; blocking on the
//! notification endpoint is the caller's affair (the transport never blocks).

use vstd::prelude::*;
use crate::caps::Endpoint;
use crate::error::Error;
use crate::ring::{Cqe, IoRing, Sqe};

verus! {

/// How many entries of `s` carry the correlation id `id`.
pub open spec fn count_matching(s: Seq<Cqe>, id: u64) -> nat
    decreases s.len(),
{
    if s.len() == 0 {
        0
    } else {
        (if s[0].user_data == id {
            1nat
        } else {
            0nat
        }) + count_matching(s.drop_first(), id)
    }
}

/// The oldest entry of `s` carrying the correlation id `id`, if any.
pub open spec fn find_matching(s: Seq<Cqe>, id: u64) -> Option<Cqe>
    decreases s.len(),
{
    if s.len() == 0 {
        None
    } else if s[0].user_data == id {
        Some(s[0])
    } else {
        find_matching(s.drop_first(), id)
    }
}

/// `s` with its oldest entry carrying `id` removed; `s` itself when no
/// entry matches.
pub open spec fn remove_first_matching(s: Seq<Cqe>, id: u64) -> Seq<Cqe>
    decreases s.len(),
{
    if s.len() == 0 {
        s
    } else if s[0].user_data == id {
        s.drop_first()
    } else {
        seq![s[0]] + remove_first_matching(s.drop_first(), id)
    }
}

/// Appending one completion raises the count for its own correlation id by
/// exactly one and leaves the count of every other id unchanged: a queue
/// push can never introduce a duplicate or a spurious completion.
pub proof fn lemma_completion_count_push(s: Seq<Cqe>, c: Cqe, id: u64)
    ensures
        count_matching(s.push(c), id) == count_matching(s, id) + (if c.user_data == id {
            1nat
        } else {
            0nat
        }),
    decreases s.len(),
{
    if s.len() == 0 {
        assert(s.push(c).drop_first() =~= Seq::<Cqe>::empty());
        assert(count_matching(Seq::<Cqe>::empty(), id) == 0);
    } else {
        assert(s.push(c).drop_first() =~= s.drop_first().push(c));
        lemma_completion_count_push(s.drop_first(), c, id);
    }
}

/// When nothing in `s` matches `id`, the search comes back empty.
proof fn lemma_find_matching_none(s: Seq<Cqe>, id: u64)
    requires
        forall|j: int| 0 <= j < s.len() ==> s[j].user_data != id,
    ensures
        find_matching(s, id) == None::<Cqe>,
    decreases s.len(),
{
    if s.len() > 0 {
        lemma_find_matching_none(s.drop_first(), id);
    }
}

/// When the first match of `id` in `s` sits at index `i`, the search
/// returns it and the removal deletes exactly that index.
proof fn lemma_find_matching_at(s: Seq<Cqe>, id: u64, i: int)
    requires
        0 <= i < s.len(),
        forall|j: int| 0 <= j < i ==> s[j].user_data != id,
        s[i].user_data == id,
    ensures
        find_matching(s, id) == Some(s[i]),
        remove_first_matching(s, id) == s.remove(i),
    decreases i,
{
    if i == 0 {
        assert(remove_first_matching(s, id) =~= s.remove(0));
    } else {
        lemma_find_matching_at(s.drop_first(), id, i - 1);
        assert(seq![s[0]] + s.drop_first().remove(i - 1) =~= s.remove(i));
    }
}

/// Server side of the ring transport: pulls submissions, posts
/// completions, and knows which endpoint to signal so the client wakes.
pub struct IoRingServer {
    client_notify: Option<Endpoint>,
}

impl IoRingServer {
    /// The endpoint to signal after posting a completion, if one was
    /// configured.
    pub closed spec fn client_notify(self) -> Option<Endpoint> {
        self.client_notify
    }

    /// A server with no notification endpoint configured yet.
    pub fn new() -> (r: IoRingServer)
        ensures
            r.client_notify() == None::<Endpoint>,
    {
        IoRingServer { client_notify: None }
    }

    /// Configures the endpoint used to wake the client after a completion.
    pub fn set_client_notify(&mut self, endpoint: Endpoint)
        ensures
            final(self).client_notify() == Some(endpoint),
    {
        self.client_notify = Some(endpoint);
    }

    /// The endpoint the caller should signal after this server posted a
    /// completion; the signal itself is a kernel primitive performed
    /// outside this crate.
    pub fn notify_endpoint(&self) -> (r: Option<Endpoint>)
        ensures
            r == self.client_notify(),
    {
        self.client_notify
    }

    /// Pulls the next submission from the client, oldest first; `None`
    /// when the submission queue is empty.
    pub fn next_request(&self, ring: &mut IoRing) -> (r: Option<Sqe>)
        requires
            old(ring).wf(),
        ensures
            final(ring).wf(),
            final(ring).cq() == old(ring).cq(),
            final(ring).sq().capacity() == old(ring).sq().capacity(),
            final(ring).sq().producer_index() == old(ring).sq().producer_index(),
            old(ring).sq().is_empty() ==> r == None::<Sqe> && *final(ring) == *old(ring),
            !old(ring).sq().is_empty() ==> {
                &&& r == Some(old(ring).sq().contents()[0])
                &&& final(ring).sq().contents() == old(ring).sq().contents().drop_first()
            },
    {
        ring.pop_sqe()
    }

    /// Posts the completion for one consumed submission: exactly one new
    /// entry carrying `user_data` joins the completion queue, and the
    /// completions of every other correlation id are untouched. Fails with
    /// [`Error::OutOfMemory`], posting nothing, exactly when the
    /// completion queue is at capacity.
    pub fn complete(&self, ring: &mut IoRing, user_data: u64, result: i32) -> (r: Result<
        (),
        Error,
    >)
        requires
            old(ring).wf(),
            old(ring).cq().producer_index() < u64::MAX,
        ensures
            final(ring).wf(),
            final(ring).sq() == old(ring).sq(),
            final(ring).cq().capacity() == old(ring).cq().capacity(),
            old(ring).cq().is_full() ==> {
                &&& r == Err::<(), Error>(Error::OutOfMemory)
                &&& *final(ring) == *old(ring)
            },
            !old(ring).cq().is_full() ==> {
                &&& r == Ok::<(), Error>(())
                &&& final(ring).cq().contents() == old(ring).cq().contents().push(
                    Cqe { user_data, res: result, flags: 0 },
                )
                &&& count_matching(final(ring).cq().contents(), user_data) == count_matching(
                    old(ring).cq().contents(),
                    user_data,
                ) + 1
                &&& forall|other: u64|
                    other != user_data ==> count_matching(final(ring).cq().contents(), other)
                        == count_matching(old(ring).cq().contents(), other)
            },
    {
        let cqe = Cqe { user_data, res: result, flags: 0 };
        let pushed = ring.push_cqe(cqe);
        match pushed {
            Ok(()) => {
                proof {
                    assert forall|other: u64| true implies count_matching(
                        ring.cq().contents(),
                        other,
                    ) == count_matching(old(ring).cq().contents(), other) + (
                    if cqe.user_data == other {
                        1nat
                    } else {
                        0nat
                    }) by {
                        lemma_completion_count_push(old(ring).cq().contents(), cqe, other);
                    }
                }
                Ok(())
            },
            Err(_) => Err(Error::OutOfMemory),
        }
    }

    /// One full server step: when the completion queue has room and a
    /// submission is pending, consumes the oldest submission and posts
    /// exactly one completion carrying its correlation id and the given
    /// device result (negative results report device failure; the
    /// completion is posted all the same). Consumes nothing when the
    /// completion queue is full, so no submission can ever lose its
    /// completion.
    pub fn serve_next(&self, ring: &mut IoRing, result: i32) -> (r: Result<Option<u64>, Error>)
        requires
            old(ring).wf(),
            old(ring).cq().producer_index() < u64::MAX,
        ensures
            final(ring).wf(),
            old(ring).cq().is_full() ==> {
                &&& r == Err::<Option<u64>, Error>(Error::OutOfMemory)
                &&& *final(ring) == *old(ring)
            },
            !old(ring).cq().is_full() && old(ring).sq().is_empty() ==> {
                &&& r == Ok::<Option<u64>, Error>(None)
                &&& *final(ring) == *old(ring)
            },
            !old(ring).cq().is_full() && !old(ring).sq().is_empty() ==> {
                &&& r == Ok::<Option<u64>, Error>(Some(old(ring).sq().contents()[0].user_data))
                &&& final(ring).sq().contents() == old(ring).sq().contents().drop_first()
                &&& final(ring).cq().contents() == old(ring).cq().contents().push(
                    Cqe { user_data: old(ring).sq().contents()[0].user_data, res: result, flags: 0 },
                )
                &&& count_matching(
                    final(ring).cq().contents(),
                    old(ring).sq().contents()[0].user_data,
                ) == count_matching(
                    old(ring).cq().contents(),
                    old(ring).sq().contents()[0].user_data,
                ) + 1
                &&& forall|other: u64|
                    other != old(ring).sq().contents()[0].user_data ==> count_matching(
                        final(ring).cq().contents(),
                        other,
                    ) == count_matching(old(ring).cq().contents(), other)
            },
    {
        if ring.cq_is_full() {
            return Err(Error::OutOfMemory);
        }
        let next = ring.pop_sqe();
        match next {
            None => Ok(None),
            Some(sqe) => {
                let completed = self.complete(ring, sqe.user_data, result);
                match completed {
                    Ok(()) => Ok(Some(sqe.user_data)),
                    Err(e) => Err(e),
                }
            },
        }
    }
}

/// Client side of the ring transport: submits operations, keeps a local
/// map of completions seen but not yet claimed, and knows which endpoint
/// to signal so the server wakes.
///
/// The local map is what lets many outstanding correlated operations share
/// one completion queue: a completion popped while looking for some other
/// correlation id is parked here instead of being dropped, so its own
/// waiter still finds it later.
pub struct IoRingClient {
    server_notify: Option<Endpoint>,
    pending: Vec<Cqe>,
}

impl IoRingClient {
    /// The endpoint to signal after submitting, if one was configured.
    pub closed spec fn server_notify(self) -> Option<Endpoint> {
        self.server_notify
    }

    /// Completions already popped from the ring but not yet claimed by
    /// their issuer, oldest first.
    pub closed spec fn parked(self) -> Seq<Cqe> {
        self.pending@
    }

    /// Every completion this client may still hand out, oldest first: the
    /// parked ones, then what the ring still holds.
    pub open spec fn outstanding(self, ring: IoRing) -> Seq<Cqe> {
        self.parked() + ring.cq().contents()
    }

    /// A client with no notification endpoint and nothing parked.
    pub fn new() -> (r: IoRingClient)
        ensures
            r.server_notify() == None::<Endpoint>,
            r.parked() == Seq::<Cqe>::empty(),
    {
        IoRingClient { server_notify: None, pending: Vec::new() }
    }

    /// Configures the endpoint used to wake the server after a submission.
    pub fn set_server_notify(&mut self, endpoint: Endpoint)
        ensures
            final(self).server_notify() == Some(endpoint),
            final(self).parked() == old(self).parked(),
    {
        self.server_notify = Some(endpoint);
    }

    /// The endpoint the caller should signal after a submission; the
    /// signal itself is a kernel primitive performed outside this crate.
    pub fn notify_endpoint(&self) -> (r: Option<Endpoint>)
        ensures
            r == self.server_notify(),
    {
        self.server_notify
    }

    /// Pushes one submission onto the ring. Fails with
    /// [`Error::OutOfMemory`], pushing nothing, exactly when the
    /// submission queue is at capacity.
    pub fn submit(&self, ring: &mut IoRing, sqe: Sqe) -> (r: Result<(), Error>)
        requires
            old(ring).wf(),
            old(ring).sq().producer_index() < u64::MAX,
        ensures
            final(ring).wf(),
            final(ring).cq() == old(ring).cq(),
            final(ring).sq().capacity() == old(ring).sq().capacity(),
            old(ring).sq().is_full() ==> {
                &&& r == Err::<(), Error>(Error::OutOfMemory)
                &&& *final(ring) == *old(ring)
            },
            !old(ring).sq().is_full() ==> {
                &&& r == Ok::<(), Error>(())
                &&& final(ring).sq().contents() == old(ring).sq().contents().push(sqe)
            },
    {
        match ring.push_sqe(sqe) {
            Ok(()) => Ok(()),
            Err(_) => Err(Error::OutOfMemory),
        }
    }

    /// Non-blocking retrieval of the oldest completion this client has not
    /// yet handed out, whether parked locally or still on the ring; `None`
    /// exactly when there is none.
    pub fn peek_completion(&mut self, ring: &mut IoRing) -> (r: Option<Cqe>)
        requires
            old(ring).wf(),
        ensures
            final(ring).wf(),
            final(ring).sq() == old(ring).sq(),
            final(ring).cq().capacity() == old(ring).cq().capacity(),
            old(self).server_notify() == final(self).server_notify(),
            old(self).outstanding(*old(ring)).len() == 0 ==> {
                &&& r == None::<Cqe>
                &&& *final(self) == *old(self)
                &&& *final(ring) == *old(ring)
            },
            old(self).outstanding(*old(ring)).len() > 0 ==> {
                &&& r == Some(old(self).outstanding(*old(ring))[0])
                &&& final(self).outstanding(*final(ring)) == old(self).outstanding(
                    *old(ring),
                ).drop_first()
            },
    {
        if self.pending.len() > 0 {
            let c = self.pending.remove(0);
            proof {
                assert(self.outstanding(*ring) =~= old(self).outstanding(*ring).drop_first());
            }
            Some(c)
        } else {
            let popped = ring.pop_cqe();
            proof {
                if old(ring).cq().contents().len() > 0 {
                    assert(self.outstanding(*ring) =~= old(self).outstanding(
                        *old(ring),
                    ).drop_first());
                }
            }
            popped
        }
    }

    /// Claims the completion of one particular operation: searches the
    /// parked completions, then drains the ring, parking every completion
    /// that carries some other correlation id. Returns the result value of
    /// the oldest completion carrying `user_data`, or `None` when none has
    /// arrived yet; in either case no completion of another id is lost.
    pub fn take_completion(&mut self, ring: &mut IoRing, user_data: u64) -> (r: Option<i32>)
        requires
            old(ring).wf(),
        ensures
            final(ring).wf(),
            final(ring).sq() == old(ring).sq(),
            final(ring).cq().capacity() == old(ring).cq().capacity(),
            old(self).server_notify() == final(self).server_notify(),
            match find_matching(old(self).outstanding(*old(ring)), user_data) {
                Some(c) => {
                    &&& r == Some(c.res)
                    &&& final(self).outstanding(*final(ring)) == remove_first_matching(
                        old(self).outstanding(*old(ring)),
                        user_data,
                    )
                },
                None => {
                    &&& r == None::<i32>
                    &&& final(self).outstanding(*final(ring)) == old(self).outstanding(*old(ring))
                    &&& final(ring).cq().is_empty()
                },
            },
    {
        let ghost comb = old(self).outstanding(*old(ring));
        // First pull everything the ring holds into the local park, so one
        // linear scan decides the matter.
        loop
            invariant
                ring.wf(),
                ring.sq() == old(ring).sq(),
                ring.cq().capacity() == old(ring).cq().capacity(),
                self.server_notify() == old(self).server_notify(),
                self.outstanding(*ring) == comb,
            ensures
                ring.wf(),
                ring.sq() == old(ring).sq(),
                ring.cq().capacity() == old(ring).cq().capacity(),
                self.server_notify() == old(self).server_notify(),
                ring.cq().is_empty(),
                self.parked() == comb,
            decreases ring.cq().contents().len(),
        {
            let popped = ring.pop_cqe();
            match popped {
                Some(c) => {
                    self.pending.push(c);
                    proof {
                        assert(self.outstanding(*ring) =~= comb);
                    }
                },
                None => {
                    proof {
                        assert(self.parked() =~= comb);
                    }
                    break;
                },
            }
        }
        // Linear scan of the park for the oldest match.
        let n: usize = self.pending.len();
        let mut i: usize = 0;
        while i < n
            invariant
                ring.wf(),
                ring.sq() == old(ring).sq(),
                ring.cq().capacity() == old(ring).cq().capacity(),
                ring.cq().is_empty(),
                self.server_notify() == old(self).server_notify(),
                comb == old(self).outstanding(*old(ring)),
                n == self.pending@.len(),
                i <= n,
                self.pending@ == comb,
                forall|j: int| 0 <= j < i ==> comb[j].user_data != user_data,
            decreases n - i,
        {
            if self.pending[i].user_data == user_data {
                let c = self.pending.remove(i);
                proof {
                    lemma_find_matching_at(comb, user_data, i as int);
                    assert(self.outstanding(*ring) =~= comb.remove(i as int));
                }
                return Some(c.res);
            }
            i = i + 1;
        }
        proof {
            lemma_find_matching_none(comb, user_data);
            assert(self.outstanding(*ring) =~= comb);
        }
        None
    }
}

} // verus!
