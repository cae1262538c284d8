use kernel_prims::Spinlock;

#[test]
fn new_lock_is_unlocked() {
    let l = Spinlock::new(7u32);
    assert!(!l.is_locked());
    assert_eq!(l.into_inner(), 7);
}

#[test]
fn lock_then_release() {
    let mut l = Spinlock::new(vec![1u8, 2]);
    let g = l.lock();
    assert!(l.is_locked());
    assert_eq!(l.data(&g).len(), 2);
    l.data_mut(&g).push(3);
    l.release(g);
    assert!(!l.is_locked());
    assert_eq!(l.into_inner(), vec![1u8, 2, 3]);
}

#[test]
fn lock_can_be_taken_again_after_release() {
    let mut l = Spinlock::new(0u64);
    for _ in 0..3 {
        let g = l.lock();
        *l.data_mut(&g) += 1;
        l.release(g);
    }
    assert_eq!(l.into_inner(), 3);
}

#[test]
fn counter_under_lock_counts_every_increment() {
    let m: u64 = 8;
    let k: u64 = 250;
    let mut l = Spinlock::new(0u64);
    for _context in 0..m {
        for _ in 0..k {
            let g = l.lock();
            let v = *l.data(&g);
            *l.data_mut(&g) = v + 1;
            l.release(g);
        }
    }
    assert!(!l.is_locked());
    assert_eq!(l.into_inner(), m * k);
}

#[test]
fn breaklock_reaches_payload_while_held() {
    let mut l = Spinlock::new(String::from("ok"));
    let g = l.lock();
    l.breaklock().push('!');
    assert!(l.is_locked());
    assert_eq!(l.data(&g).as_str(), "ok!");
    l.release(g);
    assert_eq!(l.into_inner(), "ok!");
}
