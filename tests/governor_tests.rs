use zzyl_auth::cache::SharedCache;
use zzyl_auth::governor::{
    check_locked, failure_action, lock_blocks, record_failure, record_success, FailureAction, LoginPolicy,
};

fn policy() -> LoginPolicy {
    LoginPolicy { max_failures: 5, lock_secs: 600, window_secs: 600 }
}

#[test]
fn five_failures_lock_the_account() {
    let mut cache = SharedCache::new();
    for i in 0..4u64 {
        assert!(!record_failure(&mut cache, "alice", 10 + i, policy()));
        assert!(!check_locked(&cache, "alice", 10 + i));
    }
    assert!(record_failure(&mut cache, "alice", 20, policy()));
    assert!(check_locked(&cache, "alice", 20));
    assert!(check_locked(&cache, "alice", 619));
    assert!(!check_locked(&cache, "alice", 620));
}

#[test]
fn lock_is_per_account() {
    let mut cache = SharedCache::new();
    for i in 0..5u64 {
        record_failure(&mut cache, "alice", i, policy());
    }
    assert!(check_locked(&cache, "alice", 5));
    assert!(!check_locked(&cache, "bob", 5));
}

#[test]
fn success_resets_the_counter() {
    let mut cache = SharedCache::new();
    for i in 0..4u64 {
        record_failure(&mut cache, "alice", i, policy());
    }
    record_success(&mut cache, "alice");
    for i in 0..4u64 {
        assert!(!record_failure(&mut cache, "alice", 10 + i, policy()));
    }
    assert!(!check_locked(&cache, "alice", 14));
    assert!(record_failure(&mut cache, "alice", 15, policy()));
    assert!(check_locked(&cache, "alice", 15));
}

#[test]
fn counter_expires_after_the_window() {
    let mut cache = SharedCache::new();
    for i in 0..4u64 {
        record_failure(&mut cache, "alice", i, policy());
    }
    // the last failure was at 3; its counter is gone at 603
    assert!(!record_failure(&mut cache, "alice", 603, policy()));
    assert!(!check_locked(&cache, "alice", 603));
}

#[test]
fn unreadable_lock_state_does_not_block() {
    assert!(lock_blocks(Some(true)));
    assert!(!lock_blocks(Some(false)));
    assert!(!lock_blocks(None));
}

#[test]
fn failure_decisions() {
    assert_eq!(failure_action(0, policy()), FailureAction::Count(1));
    assert_eq!(failure_action(3, policy()), FailureAction::Count(4));
    assert_eq!(failure_action(4, policy()), FailureAction::Lock);
    assert_eq!(failure_action(u64::MAX, policy()), FailureAction::Lock);
}
