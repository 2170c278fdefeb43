use arch_monitor::history::RollingHistory;
use arch_monitor::history::HISTORY_LENGTH;

#[test]
fn new_history_is_empty() {
    let h = RollingHistory::new();
    assert_eq!(h.len(), 0);
    assert!(h.values().is_empty());
}

#[test]
fn push_below_capacity_retains_everything() {
    let mut h = RollingHistory::new();
    for v in 0..5u64 {
        h.push(v);
    }
    assert_eq!(h.len(), 5);
    assert_eq!(h.values().as_slice(), &[0, 1, 2, 3, 4]);
}

#[test]
fn push_at_capacity_evicts_oldest() {
    let mut h = RollingHistory::new();
    for v in 0..HISTORY_LENGTH as u64 {
        h.push(v);
    }
    assert_eq!(h.len(), HISTORY_LENGTH);
    h.push(100);
    let expected: Vec<u64> = (1..=100u64).collect();
    assert_eq!(h.len(), HISTORY_LENGTH);
    assert_eq!(h.values().as_slice(), expected.as_slice());
}

#[test]
fn capacity_is_fixed_after_many_pushes() {
    let mut h = RollingHistory::new();
    for v in 0..250u64 {
        h.push(v);
    }
    assert_eq!(h.len(), HISTORY_LENGTH);
    let expected: Vec<u64> = (150..250u64).collect();
    assert_eq!(h.values().as_slice(), expected.as_slice());
}

#[test]
fn values_are_oldest_first() {
    let mut h = RollingHistory::new();
    h.push(7);
    h.push(8);
    h.push(9);
    let vs = h.values();
    assert_eq!(vs[0], 7);
    assert_eq!(vs[1], 8);
    assert_eq!(vs[2], 9);
}
