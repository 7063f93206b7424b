use caver::RequestIdAllocator;
use std::sync::{Arc, Mutex};

#[test]
fn ids_start_at_zero_and_increase() {
    let mut ids = RequestIdAllocator::new();
    let mut seen = Vec::new();
    for _ in 0..50 {
        seen.push(ids.next().unwrap());
    }
    assert_eq!(seen[0], 0);
    for w in seen.windows(2) {
        assert!(w[0] < w[1]);
    }
    assert_eq!(seen, (0..50).collect::<Vec<u64>>());
}

#[test]
fn ids_shared_behind_a_lock_never_repeat() {
    let ids = Arc::new(Mutex::new(RequestIdAllocator::new()));
    let a = Arc::clone(&ids);
    let b = Arc::clone(&ids);
    let mut seen = Vec::new();
    for i in 0..20 {
        let holder = if i % 2 == 0 { &a } else { &b };
        seen.push(holder.lock().unwrap().next().unwrap());
    }
    for w in seen.windows(2) {
        assert!(w[0] < w[1]);
    }
}
