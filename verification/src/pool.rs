//! Bounded admission of concurrent outbound connections.
//!
//! A [`ConnectionPool`] caps how many [`PooledConnection`] leases are
//! outstanding at once. Acquisition either grants a lease on the spot,
//! queues the caller (first in, first out), or reports that the pool has
//! shut down. Releasing a lease hands its unit straight to the oldest
//! waiter when one exists; releasing twice is a no-op. The pool is the
//! decision core: the surrounding runtime performs the actual
//! suspension, wakes the ticket a release hands back, and reports
//! [`crate::errors::PoolClosedError`] to waiters woken by a shutdown.

use vstd::prelude::*;

use crate::errors::ConfigurationError;

verus! {

/// A lease on one unit of admitted concurrency. Only the pool creates
/// leases; release is idempotent.
pub struct PooledConnection {
    released: bool,
}

impl PooledConnection {
    /// Has this lease already given its unit back?
    pub closed spec fn released_spec(&self) -> bool {
        self.released
    }

    /// Has this lease already given its unit back?
    pub fn is_released(&self) -> (r: bool)
        ensures
            r == self.released_spec(),
    {
        self.released
    }
}

/// What an acquisition attempt decided.
pub enum AcquireOutcome {
    /// A unit was free: the caller holds a lease.
    Granted(PooledConnection),
    /// The pool is saturated: the caller is queued under this ticket and
    /// must wait until a release hands the ticket a lease.
    Queued(u64),
    /// The pool has shut down; the caller gets no lease.
    Closed,
}

/// The admission state of a session: how many leases are out, who is
/// waiting, and whether the pool has shut down.
pub struct ConnectionPool {
    max_connections: usize,
    active: usize,
    closed: bool,
    waiters: Vec<u64>,
    next_ticket: u64,
}

impl ConnectionPool {
    /// The configured maximum of simultaneously outstanding leases.
    pub closed spec fn capacity_spec(&self) -> nat {
        self.max_connections as nat
    }

    /// How many leases are outstanding.
    pub closed spec fn outstanding(&self) -> nat {
        self.active as nat
    }

    /// How many units are free.
    pub closed spec fn available_spec(&self) -> nat {
        (self.max_connections - self.active) as nat
    }

    /// Has the pool shut down?
    pub closed spec fn closed_spec(&self) -> bool {
        self.closed
    }

    /// The queued tickets, oldest first.
    pub closed spec fn waiting(&self) -> Seq<u64> {
        self.waiters@
    }

    /// The next ticket number to be issued.
    pub closed spec fn tickets(&self) -> u64 {
        self.next_ticket
    }

    /// Well-formedness: outstanding leases never exceed the positive
    /// capacity; nobody waits while a unit is free; a closed pool has no
    /// waiters; tickets queue in increasing order and below the counter.
    pub closed spec fn wf(&self) -> bool {
        &&& self.max_connections >= 1
        &&& self.active <= self.max_connections
        &&& (self.waiters@.len() > 0 ==> self.active == self.max_connections)
        &&& (self.closed ==> self.waiters@.len() == 0)
        &&& (forall|i: int, j: int|
            0 <= i < j < self.waiters@.len() ==> self.waiters@[i] < self.waiters@[j])
        &&& (forall|i: int| 0 <= i < self.waiters@.len() ==> self.waiters@[i] < self.next_ticket)
    }

    /// Creates an open pool with `max_connections` units free. A zero
    /// capacity is a configuration error.
    pub fn new(max_connections: usize) -> (r: Result<ConnectionPool, ConfigurationError>)
        ensures
            r is Err <==> max_connections == 0,
            (r matches Ok(p) ==> {
                &&& p.wf()
                &&& p.capacity_spec() == max_connections
                &&& p.outstanding() == 0
                &&& !p.closed_spec()
                &&& p.waiting() == Seq::<u64>::empty()
                &&& p.tickets() == 0
            }),
    {
        if max_connections == 0 {
            Err(ConfigurationError)
        } else {
            Ok(
                ConnectionPool {
                    max_connections,
                    active: 0,
                    closed: false,
                    waiters: Vec::new(),
                    next_ticket: 0,
                },
            )
        }
    }

    /// Attempts to take a unit. A free unit is granted at once — by
    /// well-formedness nobody can be waiting then, so no queued caller
    /// is overtaken. A saturated pool queues the caller behind every
    /// earlier waiter; a closed pool grants nothing.
    pub fn acquire(&mut self) -> (out: AcquireOutcome)
        requires
            old(self).wf(),
            old(self).tickets() < u64::MAX,
        ensures
            final(self).wf(),
            final(self).capacity_spec() == old(self).capacity_spec(),
            final(self).closed_spec() == old(self).closed_spec(),
            (match out {
                AcquireOutcome::Closed => {
                    &&& old(self).closed_spec()
                    &&& *final(self) == *old(self)
                },
                AcquireOutcome::Granted(lease) => {
                    &&& !old(self).closed_spec()
                    &&& old(self).outstanding() < old(self).capacity_spec()
                    &&& !lease.released_spec()
                    &&& final(self).outstanding() == old(self).outstanding() + 1
                    &&& final(self).waiting() == old(self).waiting()
                    &&& final(self).tickets() == old(self).tickets()
                },
                AcquireOutcome::Queued(t) => {
                    &&& !old(self).closed_spec()
                    &&& old(self).outstanding() == old(self).capacity_spec()
                    &&& t == old(self).tickets()
                    &&& final(self).waiting() == old(self).waiting().push(t)
                    &&& final(self).outstanding() == old(self).outstanding()
                    &&& final(self).tickets() == old(self).tickets() + 1
                },
            }),
    {
        if self.closed {
            AcquireOutcome::Closed
        } else if self.active < self.max_connections {
            self.active = self.active + 1;
            AcquireOutcome::Granted(PooledConnection { released: false })
        } else {
            let ticket = self.next_ticket;
            self.next_ticket = self.next_ticket + 1;
            self.waiters.push(ticket);
            AcquireOutcome::Queued(ticket)
        }
    }

    /// Gives a lease's unit back. Releasing an already-released lease
    /// changes nothing — idempotent, not an error. Otherwise the unit
    /// goes to the oldest waiter when one exists: that ticket is granted
    /// a fresh lease, returned here for the runtime to deliver, and the
    /// number outstanding does not change. With nobody waiting the unit
    /// simply becomes free.
    pub fn release(&mut self, lease: &mut PooledConnection) -> (granted: Option<
        (u64, PooledConnection),
    >)
        requires
            old(self).wf(),
        ensures
            final(self).wf(),
            final(self).capacity_spec() == old(self).capacity_spec(),
            final(self).closed_spec() == old(self).closed_spec(),
            final(self).tickets() == old(self).tickets(),
            final(lease).released_spec(),
            (old(lease).released_spec() ==> {
                &&& *final(self) == *old(self)
                &&& granted is None
            }),
            (!old(lease).released_spec() ==> (match granted {
                Some(pair) => {
                    &&& old(self).waiting().len() > 0
                    &&& pair.0 == old(self).waiting()[0]
                    &&& !pair.1.released_spec()
                    &&& final(self).waiting() == old(self).waiting().subrange(
                        1,
                        old(self).waiting().len() as int,
                    )
                    &&& final(self).outstanding() == old(self).outstanding()
                },
                None => {
                    &&& old(self).waiting().len() == 0
                    &&& final(self).waiting() == old(self).waiting()
                    &&& final(self).outstanding() == (if old(self).outstanding() > 0 {
                        (old(self).outstanding() - 1) as nat
                    } else {
                        0nat
                    })
                },
            })),
    {
        if lease.released {
            return None;
        }
        lease.released = true;
        if self.waiters.len() > 0 {
            let ticket = self.waiters.remove(0);
            proof {
                assert(self.waiters@ =~= old(self).waiting().subrange(
                    1,
                    old(self).waiting().len() as int,
                ));
            }
            Some((ticket, PooledConnection { released: false }))
        } else {
            if self.active > 0 {
                self.active = self.active - 1;
            }
            None
        }
    }

    /// Abandons a queued acquisition, for a caller whose wait was
    /// cancelled. The ticket leaves the queue and no capacity unit is
    /// consumed; the other waiters keep their order.
    pub fn cancel_wait(&mut self, ticket: u64)
        requires
            old(self).wf(),
        ensures
            final(self).wf(),
            final(self).capacity_spec() == old(self).capacity_spec(),
            final(self).closed_spec() == old(self).closed_spec(),
            final(self).tickets() == old(self).tickets(),
            final(self).outstanding() == old(self).outstanding(),
            ((forall|i: int|
                0 <= i < old(self).waiting().len() ==> old(self).waiting()[i] != ticket)
                ==> final(self).waiting() == old(self).waiting()),
            (forall|i: int|
                0 <= i < old(self).waiting().len() && old(self).waiting()[i] == ticket
                    ==> final(self).waiting() == old(self).waiting().remove(i)),
    {
        let n = self.waiters.len();
        let mut i: usize = 0;
        while i < n
            invariant
                old(self).wf(),
                n == self.waiters@.len(),
                i <= n,
                *self == *old(self),
                forall|k: int| 0 <= k < i ==> self.waiters@[k] != ticket,
            decreases n - i,
        {
            if self.waiters[i] == ticket {
                self.waiters.remove(i);
                proof {
                    let w = old(self).waiting();
                    let t = w.remove(i as int);
                    w.remove_ensures(i as int);
                    assert(self.waiters@ =~= t);
                    assert forall|p: int, q: int| 0 <= p < q < t.len() implies t[p] < t[q] by {
                        let pp: int = if p < i as int { p } else { p + 1 };
                        let qq: int = if q < i as int { q } else { q + 1 };
                        assert(t[p] == w[pp]);
                        assert(t[q] == w[qq]);
                    }
                    assert forall|p: int| 0 <= p < t.len() implies t[p] < old(self).tickets() by {
                        let pp: int = if p < i as int { p } else { p + 1 };
                        assert(t[p] == w[pp]);
                    }
                    assert forall|j: int| 0 <= j < w.len() && w[j] == ticket implies self.waiters@
                        == w.remove(j) by {
                        if j < i as int {
                            assert(w[j] < w[i as int]);
                        } else if j > i as int {
                            assert(w[i as int] < w[j]);
                        }
                    }
                }
                return;
            }
            i = i + 1;
        }
    }

    /// Shuts the pool down: no further lease is granted, and every
    /// queued ticket is handed back so the runtime can wake it with a
    /// [`crate::errors::PoolClosedError`]. Outstanding leases stay valid
    /// and can still be released.
    pub fn close(&mut self) -> (woken: Vec<u64>)
        requires
            old(self).wf(),
        ensures
            final(self).wf(),
            final(self).closed_spec(),
            final(self).capacity_spec() == old(self).capacity_spec(),
            final(self).outstanding() == old(self).outstanding(),
            final(self).tickets() == old(self).tickets(),
            final(self).waiting() == Seq::<u64>::empty(),
            woken@ == old(self).waiting(),
    {
        self.closed = true;
        let woken = self.waiters.split_off(0);
        proof {
            assert(woken@ =~= old(self).waiting());
            assert(self.waiters@ =~= Seq::<u64>::empty());
        }
        woken
    }

    /// The configured capacity.
    pub fn capacity(&self) -> (c: usize)
        ensures
            c == self.capacity_spec(),
    {
        self.max_connections
    }

    /// How many leases are outstanding.
    pub fn outstanding_count(&self) -> (n: usize)
        ensures
            n == self.outstanding(),
    {
        self.active
    }

    /// How many units are free.
    pub fn available(&self) -> (n: usize)
        requires
            self.wf(),
        ensures
            n == self.available_spec(),
    {
        self.max_connections - self.active
    }

    /// Has the pool shut down?
    pub fn is_closed(&self) -> (r: bool)
        ensures
            r == self.closed_spec(),
    {
        self.closed
    }

    /// How many callers are queued.
    pub fn waiting_count(&self) -> (n: usize)
        ensures
            n == self.waiting().len(),
    {
        self.waiters.len()
    }

    /// The next ticket number to be issued.
    pub fn tickets_issued(&self) -> (n: u64)
        ensures
            n == self.tickets(),
    {
        self.next_ticket
    }
}

/// At all times, the number of outstanding leases is bounded by the
/// configured capacity, and the free units never exceed it either —
/// however leases were acquired and released, and however often a lease
/// was released twice.
pub proof fn lemma_admission_bounded(p: ConnectionPool)
    requires
        p.wf(),
    ensures
        p.outstanding() <= p.capacity_spec(),
        p.available_spec() <= p.capacity_spec(),
        p.available_spec() + p.outstanding() == p.capacity_spec(),
{
}

} // verus!
