use shared_cell::arc::Arc;
use shared_cell::arc::UpgradeStep;
use shared_cell::arc::past_ceiling;
use shared_cell::arc::upgrade_step;
use shared_cell::arc::was_last;
use std::cell::Cell;
use std::rc::Rc;

#[test]
fn upgrade_after_dropping_original() {
    let (a, mut data) = Arc::new(42u64);
    let b = a.clone(&mut data);
    a.drop(&mut data);
    let w = b.downgrade(&mut data);
    let up = w.upgrade(&mut data);
    let c = up.unwrap();
    assert_eq!(*c.deref(&data), 42);
    c.drop(&mut data);
    w.drop(&mut data);
    b.drop(&mut data);
    assert!(data.is_freed());
}

#[test]
fn upgrade_fails_after_last_owner_dropped() {
    let (a, mut data) = Arc::new(String::from("x"));
    let w = a.downgrade(&mut data);
    a.drop(&mut data);
    assert!(w.upgrade(&mut data).is_none());
    w.drop(&mut data);
    assert!(data.is_freed());
}

#[test]
fn exclusive_access_only_when_unique() {
    let (a, mut data) = Arc::new(0u64);
    {
        let m = a.get_mut(&mut data).unwrap();
        *m = 1;
    }
    let b = a.clone(&mut data);
    assert!(a.get_mut(&mut data).is_none());
    assert!(b.get_mut(&mut data).is_none());
    assert_eq!(*a.deref(&data), 1);
    assert_eq!(*b.deref(&data), 1);
    a.drop(&mut data);
    b.drop(&mut data);
}

#[test]
fn exclusive_access_blocked_by_weak_handle() {
    let (a, mut data) = Arc::new(5u32);
    let w = a.downgrade(&mut data);
    assert!(a.get_mut(&mut data).is_none());
    w.drop(&mut data);
    let m = a.get_mut(&mut data).unwrap();
    *m = 6;
    assert_eq!(*a.deref(&data), 6);
    a.drop(&mut data);
}

#[test]
fn failed_upgrade_is_final() {
    let (a, mut data) = Arc::new(9i32);
    let w1 = a.downgrade(&mut data);
    let w2 = w1.clone(&mut data);
    a.drop(&mut data);
    assert!(w1.upgrade(&mut data).is_none());
    assert!(w2.upgrade(&mut data).is_none());
    assert!(w1.upgrade(&mut data).is_none());
    w1.drop(&mut data);
    w2.drop(&mut data);
    assert!(data.is_freed());
}

struct Probe {
    drops: Rc<Cell<u32>>,
}

impl Drop for Probe {
    fn drop(&mut self) {
        self.drops.set(self.drops.get() + 1);
    }
}

#[test]
fn payload_destroyed_exactly_once_before_free() {
    let drops = Rc::new(Cell::new(0u32));
    let (a, mut data) = Arc::new(Probe { drops: Rc::clone(&drops) });
    let b = a.clone(&mut data);
    let w = a.downgrade(&mut data);
    a.drop(&mut data);
    assert_eq!(drops.get(), 0);
    assert!(data.has_payload());
    b.drop(&mut data);
    assert_eq!(drops.get(), 1);
    assert!(!data.has_payload());
    assert!(!data.is_freed());
    w.drop(&mut data);
    assert_eq!(drops.get(), 1);
    assert!(data.is_freed());
}

#[test]
fn counts_follow_protocol() {
    let (a, mut data) = Arc::new(3u8);
    assert_eq!(data.strong_count(), 1);
    assert_eq!(data.total_count(), 1);
    let b = a.clone(&mut data);
    assert_eq!(data.strong_count(), 2);
    assert_eq!(data.total_count(), 2);
    let w = a.downgrade(&mut data);
    assert_eq!(data.strong_count(), 2);
    assert_eq!(data.total_count(), 3);
    let c = w.upgrade(&mut data).unwrap();
    assert_eq!(data.strong_count(), 3);
    assert_eq!(data.total_count(), 4);
    c.drop(&mut data);
    b.drop(&mut data);
    assert_eq!(data.strong_count(), 1);
    assert_eq!(data.total_count(), 2);
    w.drop(&mut data);
    assert_eq!(data.strong_count(), 1);
    assert_eq!(data.total_count(), 1);
    a.drop(&mut data);
    assert_eq!(data.strong_count(), 0);
    assert_eq!(data.total_count(), 0);
    assert!(data.is_freed());
}

#[test]
fn repeated_clone_drop_cycles() {
    let drops = Rc::new(Cell::new(0u32));
    let (a, mut data) = Arc::new(Probe { drops: Rc::clone(&drops) });
    let w = a.downgrade(&mut data);
    for _ in 0..10_000 {
        let b = a.clone(&mut data);
        let c = w.upgrade(&mut data).unwrap();
        c.drop(&mut data);
        b.drop(&mut data);
        assert_eq!(data.strong_count(), 1);
        assert_eq!(data.total_count(), 2);
    }
    assert_eq!(drops.get(), 0);
    a.drop(&mut data);
    assert_eq!(drops.get(), 1);
    assert!(!data.is_freed());
    w.drop(&mut data);
    assert_eq!(drops.get(), 1);
    assert!(data.is_freed());
}

#[test]
fn upgrade_decision_matches_protocol() {
    assert!(matches!(upgrade_step(0), UpgradeStep::NoValue));
    assert!(matches!(upgrade_step(1), UpgradeStep::Raise(2)));
    assert!(matches!(upgrade_step(127), UpgradeStep::Raise(128)));
    assert!(matches!(upgrade_step(128), UpgradeStep::PastCeiling));
    assert!(matches!(upgrade_step(255), UpgradeStep::PastCeiling));
}

#[test]
fn drop_decision_and_overflow_guard() {
    assert!(was_last(1));
    assert!(!was_last(0));
    assert!(!was_last(2));
    assert!(!past_ceiling(127));
    assert!(past_ceiling(128));
    assert!(past_ceiling(255));
}
