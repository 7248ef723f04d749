use typed_schema::error::DatabaseError;
use typed_schema::pool::{Lease, Pool, SlotState, WaitPolicy};

#[test]
fn pool_without_slots_is_exhausted() {
    let mut pool = Pool::new(0);
    assert_eq!(pool.limit(), 0);
    assert_eq!(pool.acquire(), Err(DatabaseError::PoolExhausted));
    assert_eq!(pool.acquire(), Err(DatabaseError::PoolExhausted));
}

#[test]
fn new_pool_has_only_closed_slots() {
    let pool = Pool::new(3);
    assert_eq!(pool.limit(), 3);
    assert_eq!(pool.slots, vec![SlotState::Closed, SlotState::Closed, SlotState::Closed]);
    assert_eq!(pool.state(2), Some(SlotState::Closed));
    assert_eq!(pool.state(3), None);
    assert_eq!(pool.lowest(SlotState::Idle), None);
    assert_eq!(pool.lowest(SlotState::Closed), Some(0));
}

#[test]
fn acquire_never_hands_out_a_checked_out_slot() {
    let mut pool = Pool::new(2);
    let a = pool.acquire().unwrap();
    let b = pool.acquire().unwrap();
    assert_eq!(a, Lease { slot: 0, fresh: true });
    assert_eq!(b, Lease { slot: 1, fresh: true });
    assert_ne!(a.slot, b.slot);
    assert_eq!(pool.acquire(), Err(DatabaseError::PoolExhausted));
    assert_eq!(pool.slots, vec![SlotState::CheckedOut, SlotState::CheckedOut]);
}

#[test]
fn healthy_release_is_reused_before_a_new_slot_is_opened() {
    let mut pool = Pool::new(3);
    let a = pool.acquire().unwrap();
    let b = pool.acquire().unwrap();
    assert!(pool.release(b.slot, true));
    assert_eq!(pool.state(b.slot), Some(SlotState::Idle));
    assert_eq!(pool.acquire(), Ok(Lease { slot: 1, fresh: false }));
    assert_eq!(pool.acquire(), Ok(Lease { slot: 2, fresh: true }));
    assert_eq!(pool.state(a.slot), Some(SlotState::CheckedOut));
}

#[test]
fn unhealthy_release_closes_the_slot_for_a_replacement() {
    let mut pool = Pool::new(1);
    let a = pool.acquire().unwrap();
    assert_eq!(pool.acquire(), Err(DatabaseError::PoolExhausted));
    assert!(pool.release(a.slot, false));
    assert_eq!(pool.state(0), Some(SlotState::Closed));
    assert_eq!(pool.acquire(), Ok(Lease { slot: 0, fresh: true }));
}

#[test]
fn release_of_a_slot_not_checked_out_changes_nothing() {
    let mut pool = Pool::new(2);
    assert!(!pool.release(0, true));
    assert!(!pool.release(7, false));
    let a = pool.acquire().unwrap();
    assert!(pool.release(a.slot, true));
    assert!(!pool.release(a.slot, false));
    assert_eq!(pool.slots, vec![SlotState::Idle, SlotState::Closed]);
}

#[test]
fn wait_policy_gives_up_at_its_limit() {
    let policy = WaitPolicy { max_wait_ms: Some(50) };
    assert_eq!(policy.expired(0), None);
    assert_eq!(policy.expired(49), None);
    assert_eq!(policy.expired(50), Some(DatabaseError::PoolExhausted));
    assert_eq!(policy.expired(u64::MAX), Some(DatabaseError::PoolExhausted));
    let at_once = WaitPolicy { max_wait_ms: Some(0) };
    assert_eq!(at_once.expired(0), Some(DatabaseError::PoolExhausted));
}

#[test]
fn wait_policy_without_limit_never_gives_up() {
    let policy = WaitPolicy { max_wait_ms: None };
    assert_eq!(policy.expired(0), None);
    assert_eq!(policy.expired(u64::MAX), None);
}

#[test]
fn live_count_follows_acquire_and_release() {
    let mut pool = Pool::new(3);
    assert_eq!(pool.live(), 0);
    let a = pool.acquire().unwrap();
    let b = pool.acquire().unwrap();
    assert_eq!(pool.live(), 2);
    assert!(pool.release(a.slot, true));
    assert_eq!(pool.live(), 2);
    assert!(pool.release(b.slot, false));
    assert_eq!(pool.live(), 1);
    assert_eq!(pool.acquire(), Ok(Lease { slot: 0, fresh: false }));
    assert_eq!(pool.live(), 1);
    assert_eq!(pool.acquire(), Ok(Lease { slot: 1, fresh: true }));
    assert_eq!(pool.acquire(), Ok(Lease { slot: 2, fresh: true }));
    assert_eq!(pool.live(), 3);
    assert_eq!(pool.acquire(), Err(DatabaseError::PoolExhausted));
    assert_eq!(pool.live(), 3);
}
