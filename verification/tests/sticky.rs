use nsticky::sticky::{AddOutcome, RemoveOutcome, StickySet};

#[test]
fn new_set_is_empty() {
    let set = StickySet::new();
    assert_eq!(set.snapshot(), Vec::<u64>::new());
    assert!(!set.contains(0));
}

#[test]
fn add_reports_whether_the_id_is_new() {
    let mut set = StickySet::new();
    assert_eq!(set.add(7), AddOutcome::Inserted);
    assert_eq!(set.add(7), AddOutcome::AlreadyPresent);
    assert!(set.contains(7));
    assert_eq!(set.snapshot(), vec![7]);
}

#[test]
fn remove_reports_whether_the_id_was_there() {
    let mut set = StickySet::new();
    assert_eq!(set.remove(7), RemoveOutcome::NotPresent);
    set.add(7);
    assert_eq!(set.remove(7), RemoveOutcome::Removed);
    assert_eq!(set.remove(7), RemoveOutcome::NotPresent);
    assert!(!set.contains(7));
    assert_eq!(set.snapshot(), Vec::<u64>::new());
}

#[test]
fn snapshot_is_ascending_whatever_the_order_of_adds() {
    let mut set = StickySet::new();
    for id in [9, 2, u64::MAX, 0, 5, 2, 9] {
        set.add(id);
    }
    assert_eq!(set.snapshot(), vec![0, 2, 5, 9, u64::MAX]);
}

#[test]
fn snapshot_is_a_copy() {
    let mut set = StickySet::new();
    set.add(1);
    let before = set.snapshot();
    set.add(2);
    assert_eq!(before, vec![1]);
    assert_eq!(set.snapshot(), vec![1, 2]);
}

#[test]
fn retain_drops_what_the_predicate_refuses() {
    let mut set = StickySet::new();
    for id in 1..=10 {
        set.add(id);
    }
    set.retain(|id| id % 2 == 0);
    assert_eq!(set.snapshot(), vec![2, 4, 6, 8, 10]);
    set.retain(|_| true);
    assert_eq!(set.snapshot(), vec![2, 4, 6, 8, 10]);
    set.retain(|_| false);
    assert_eq!(set.snapshot(), Vec::<u64>::new());
}

#[test]
fn a_large_set_keeps_every_member_once() {
    let mut set = StickySet::new();
    for round in 0..3 {
        for id in (0..500u64).rev() {
            let outcome = set.add(id * 3);
            if round == 0 {
                assert_eq!(outcome, AddOutcome::Inserted);
            } else {
                assert_eq!(outcome, AddOutcome::AlreadyPresent);
            }
        }
    }
    let expected: Vec<u64> = (0..500u64).map(|id| id * 3).collect();
    assert_eq!(set.snapshot(), expected);
}
