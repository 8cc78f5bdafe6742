use nyan_browser::pool::{AcquireOutcome, ConnectionPool, PooledConnection};

fn expect_granted(out: AcquireOutcome) -> PooledConnection {
    match out {
        AcquireOutcome::Granted(lease) => lease,
        AcquireOutcome::Queued(_) => panic!("expected a grant, got a ticket"),
        AcquireOutcome::Closed => panic!("expected a grant, pool is closed"),
    }
}

fn expect_queued(out: AcquireOutcome) -> u64 {
    match out {
        AcquireOutcome::Queued(t) => t,
        AcquireOutcome::Granted(_) => panic!("expected a ticket, got a grant"),
        AcquireOutcome::Closed => panic!("expected a ticket, pool is closed"),
    }
}

#[test]
fn pool_zero_capacity_is_a_configuration_error() {
    assert!(ConnectionPool::new(0).is_err());
    assert!(ConnectionPool::new(1).is_ok());
}

#[test]
fn outstanding_leases_never_exceed_capacity() {
    let mut pool = ConnectionPool::new(2).unwrap();
    let mut leases = Vec::new();
    let mut tickets = Vec::new();
    for _ in 0..10 {
        match pool.acquire() {
            AcquireOutcome::Granted(lease) => leases.push(lease),
            AcquireOutcome::Queued(t) => tickets.push(t),
            AcquireOutcome::Closed => panic!("pool is open"),
        }
        assert!(pool.outstanding_count() <= pool.capacity());
    }
    assert_eq!(leases.len(), 2);
    assert_eq!(tickets.len(), 8);
    assert_eq!(pool.outstanding_count(), 2);
    assert_eq!(pool.waiting_count(), 8);
    assert_eq!(pool.available(), 0);
}

#[test]
fn waiters_are_granted_first_in_first_out() {
    let mut pool = ConnectionPool::new(1).unwrap();
    let mut lease = expect_granted(pool.acquire());
    let t1 = expect_queued(pool.acquire());
    let t2 = expect_queued(pool.acquire());
    let t3 = expect_queued(pool.acquire());

    let (granted_to, mut handed) = pool.release(&mut lease).unwrap();
    assert_eq!(granted_to, t1);
    assert_eq!(pool.outstanding_count(), 1);

    let (granted_to, mut handed2) = pool.release(&mut handed).unwrap();
    assert_eq!(granted_to, t2);

    let (granted_to, mut handed3) = pool.release(&mut handed2).unwrap();
    assert_eq!(granted_to, t3);

    assert!(pool.release(&mut handed3).is_none());
    assert_eq!(pool.outstanding_count(), 0);
    assert_eq!(pool.waiting_count(), 0);
}

#[test]
fn releasing_twice_is_a_no_op() {
    let mut pool = ConnectionPool::new(1).unwrap();
    let mut lease = expect_granted(pool.acquire());
    assert_eq!(pool.available(), 0);

    assert!(pool.release(&mut lease).is_none());
    assert!(lease.is_released());
    assert_eq!(pool.available(), 1);

    // the second release must not mint a second free unit
    assert!(pool.release(&mut lease).is_none());
    assert_eq!(pool.available(), 1);
    assert!(pool.available() <= pool.capacity());
    assert_eq!(pool.outstanding_count(), 0);
}

#[test]
fn released_unit_can_be_acquired_again() {
    let mut pool = ConnectionPool::new(1).unwrap();
    let mut lease = expect_granted(pool.acquire());
    pool.release(&mut lease);
    let mut again = expect_granted(pool.acquire());
    assert!(!again.is_released());
    pool.release(&mut again);
}

#[test]
fn close_reports_every_waiter_and_refuses_new_callers() {
    let mut pool = ConnectionPool::new(1).unwrap();
    let _lease = expect_granted(pool.acquire());
    let t1 = expect_queued(pool.acquire());
    let t2 = expect_queued(pool.acquire());

    let woken = pool.close();
    assert_eq!(woken, vec![t1, t2]);
    assert!(pool.is_closed());
    assert_eq!(pool.waiting_count(), 0);
    assert!(matches!(pool.acquire(), AcquireOutcome::Closed));
}

#[test]
fn cancelled_waiter_leaves_the_queue_without_consuming_a_unit() {
    let mut pool = ConnectionPool::new(1).unwrap();
    let mut lease = expect_granted(pool.acquire());
    let t1 = expect_queued(pool.acquire());
    let t2 = expect_queued(pool.acquire());

    pool.cancel_wait(t1);
    assert_eq!(pool.waiting_count(), 1);
    assert_eq!(pool.outstanding_count(), 1);

    // the remaining waiter is served next
    let (granted_to, _handed) = pool.release(&mut lease).unwrap();
    assert_eq!(granted_to, t2);
}

#[test]
fn cancelling_an_unknown_ticket_changes_nothing() {
    let mut pool = ConnectionPool::new(1).unwrap();
    let _lease = expect_granted(pool.acquire());
    let t1 = expect_queued(pool.acquire());
    pool.cancel_wait(t1 + 100);
    assert_eq!(pool.waiting_count(), 1);
}
