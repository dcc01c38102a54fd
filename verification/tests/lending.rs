//! Scenario tests of the lending protocol.

use tide_diesel::errors::AccessError;
use tide_diesel::errors::AcquisitionError;
use tide_diesel::errors::ConfigError;
use tide_diesel::lending::LockAttempt;
use tide_diesel::lending::Slot;
use tide_diesel::lending::attach_exclusive;
use tide_diesel::lending::attach_shared;
use tide_diesel::lending::detach;
use tide_diesel::lending::get_pooled_connection;
use tide_diesel::lending::try_lock;
use tide_diesel::lending::unlock;
use tide_diesel::pool::Pool;

#[test]
fn valid_uri_pool_of_two_serves_two_requests() {
    let mut pool = Pool::construct("postgres://user@localhost/db", Some(2)).unwrap();
    assert_eq!(pool.capacity(), 2);
    assert_eq!(pool.available(), 2);

    let mut req_a = Slot::new();
    let mut req_b = Slot::new();
    assert!(attach_exclusive(&mut req_a, &mut pool).is_ok());
    assert!(attach_exclusive(&mut req_b, &mut pool).is_ok());
    assert!(req_a.is_attached());
    assert!(req_b.is_attached());
    assert_eq!(pool.available(), 0);

    detach(req_a, &mut pool);
    detach(req_b, &mut pool);
    assert_eq!(pool.available(), 2);
}

#[test]
fn exhausted_pool_makes_next_request_wait_for_a_release() {
    let mut pool = Pool::construct("postgres://localhost/db", Some(1)).unwrap();
    let mut first = Slot::new();
    let mut second = Slot::new();
    assert!(attach_exclusive(&mut first, &mut pool).is_ok());
    // the pool is exhausted: the second request cannot attach yet
    assert_eq!(
        attach_exclusive(&mut second, &mut pool),
        Err(AcquisitionError::Exhausted)
    );
    assert!(!second.is_attached());
    // one of the holders releases; the waiting request now succeeds
    detach(first, &mut pool);
    assert!(attach_exclusive(&mut second, &mut pool).is_ok());
    detach(second, &mut pool);
    assert_eq!(pool.available(), 1);
}

#[test]
fn malformed_uri_fails_construction() {
    match Pool::construct("localhost:5432/db", Some(2)) {
        Err(ConfigError::MalformedUri) => {}
        other => panic!("expected a malformed-URI failure, got {:?}", other.map(|p| p.capacity())),
    }
    assert!(matches!(Pool::construct("", None), Err(ConfigError::MalformedUri)));
    // the scheme alone, with no authority behind it, is not a URI
    assert!(matches!(
        Pool::construct("postgres://", Some(2)),
        Err(ConfigError::MalformedUri)
    ));
}

#[test]
fn zero_pool_size_fails_construction() {
    assert!(matches!(
        Pool::construct("postgres://localhost/db", Some(0)),
        Err(ConfigError::InvalidPoolSize)
    ));
}

#[test]
fn default_pool_size_is_used_without_a_bound() {
    let pool = Pool::construct("postgresql://localhost/db", None).unwrap();
    assert_eq!(pool.capacity(), 10);
    assert_eq!(pool.available(), 10);
}

#[test]
fn accessor_before_middleware_is_a_precondition_violation() {
    let mut pool = Pool::adopt(2);
    let slot = Slot::new();
    assert!(matches!(
        get_pooled_connection(&slot, &mut pool),
        Err(AccessError::PreconditionViolation)
    ));
    // the pool was not touched
    assert_eq!(pool.available(), 2);

    let mut slot = slot;
    assert!(matches!(try_lock(&mut slot), LockAttempt::NotAttached));
}

#[test]
fn accessor_of_the_other_flavor_is_a_precondition_violation() {
    let mut pool = Pool::adopt(2);
    let mut slot = Slot::new();
    assert!(attach_exclusive(&mut slot, &mut pool).is_ok());
    // the request is under exclusive lending: the shared accessor must not run
    assert!(matches!(
        get_pooled_connection(&slot, &mut pool),
        Err(AccessError::PreconditionViolation)
    ));
}

#[test]
fn attach_is_idempotent_per_request() {
    let mut pool = Pool::adopt(3);
    let mut slot = Slot::new();
    assert!(attach_exclusive(&mut slot, &mut pool).is_ok());
    assert_eq!(pool.available(), 2);
    // a nested pipeline runs the middleware again: nothing changes
    assert!(attach_exclusive(&mut slot, &mut pool).is_ok());
    assert!(attach_exclusive(&mut slot, &mut pool).is_ok());
    assert_eq!(pool.available(), 2);
    detach(slot, &mut pool);
    assert_eq!(pool.available(), 3);

    let mut shared = Slot::new();
    attach_shared(&mut shared);
    attach_shared(&mut shared);
    assert!(shared.is_attached());
    // an attached slot is never swapped: the exclusive flavor skips it too
    assert!(attach_exclusive(&mut shared, &mut pool).is_ok());
    assert_eq!(pool.available(), 3);
}

#[test]
fn exclusive_access_is_serialized() {
    let mut pool = Pool::adopt(1);
    let mut slot = Slot::new();
    assert!(attach_exclusive(&mut slot, &mut pool).is_ok());

    let handle = match try_lock(&mut slot) {
        LockAttempt::Acquired(h) => h,
        _ => panic!("a free guard must be granted"),
    };
    // while the handle is outstanding, a second task must wait
    assert!(matches!(try_lock(&mut slot), LockAttempt::MustWait));
    assert!(matches!(try_lock(&mut slot), LockAttempt::MustWait));
    // the holder's scope ends; the next attempt succeeds
    let first_ticket = handle.ticket();
    unlock(&mut slot, handle);
    match try_lock(&mut slot) {
        LockAttempt::Acquired(h2) => {
            // it is the same single connection, lent once for the whole request
            assert_eq!(h2.ticket(), first_ticket);
            unlock(&mut slot, h2);
        }
        _ => panic!("a released guard must be granted again"),
    }
}

#[test]
fn guard_drop_restores_available_count() {
    let mut pool = Pool::adopt(2);
    let before = pool.available();
    let mut slot = Slot::new();
    assert!(attach_exclusive(&mut slot, &mut pool).is_ok());
    assert_eq!(pool.available(), before - 1);
    // request completes normally; its slot is torn down with its scope
    detach(slot, &mut pool);
    assert_eq!(pool.available(), before);
}

#[test]
fn shared_lending_yields_independent_distinct_checkouts() {
    let mut pool = Pool::adopt(2);
    let mut slot = Slot::new();
    attach_shared(&mut slot);
    // the slot holds the pool handle; no checkout happened at attach time
    assert_eq!(pool.available(), 2);

    let first = get_pooled_connection(&slot, &mut pool).unwrap();
    let second = get_pooled_connection(&slot, &mut pool).unwrap();
    // two distinct checkouts are outstanding at once
    assert_ne!(first.ticket(), second.ticket());
    assert_eq!(pool.available(), 0);

    // each one is released independently
    pool.give_back(first);
    assert_eq!(pool.available(), 1);
    pool.give_back(second);
    assert_eq!(pool.available(), 2);
}

#[test]
fn shared_lending_fails_only_on_exhaustion() {
    let mut pool = Pool::adopt(1);
    let mut slot = Slot::new();
    attach_shared(&mut slot);
    let held = get_pooled_connection(&slot, &mut pool).unwrap();
    // exhausted now: the next call fails, independent of the earlier call itself
    assert!(matches!(
        get_pooled_connection(&slot, &mut pool),
        Err(AccessError::Acquisition(AcquisitionError::Exhausted))
    ));
    pool.give_back(held);
    // capacity is back: the very same request may check out again
    assert!(get_pooled_connection(&slot, &mut pool).is_ok());
}

#[test]
fn checkout_on_an_empty_pool_is_exhaustion() {
    let mut pool = Pool::adopt(0);
    assert_eq!(pool.checkout().unwrap_err(), AcquisitionError::Exhausted);
    let mut slot = Slot::new();
    assert_eq!(
        attach_exclusive(&mut slot, &mut pool),
        Err(AcquisitionError::Exhausted)
    );
    assert!(!slot.is_attached());
}

#[test]
fn adopted_pool_starts_full() {
    let mut pool = Pool::adopt(4);
    assert_eq!(pool.capacity(), 4);
    assert_eq!(pool.available(), 4);
    let c = pool.checkout().unwrap();
    assert_eq!(pool.available(), 3);
    pool.give_back(c);
    assert_eq!(pool.available(), 4);
}
