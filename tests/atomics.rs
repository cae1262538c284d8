use kernel_prims::{
    Atomic, AtomicBool, AtomicI16, AtomicI32, AtomicI64, AtomicI8, AtomicISize, AtomicU16,
    AtomicU32, AtomicU64, AtomicU8, AtomicUSize,
};

#[test]
fn store_then_fetch_u32() {
    let mut c = AtomicU32::new(0);
    c.store(0xDEAD_BEEF);
    assert_eq!(c.fetch(), 0xDEAD_BEEF);
}

#[test]
fn store_then_fetch_every_width() {
    let mut a = AtomicU8::new(0);
    a.store(255);
    assert_eq!(a.fetch(), 255);
    let mut b = AtomicI8::new(0);
    b.store(-128);
    assert_eq!(b.fetch(), -128);
    let mut c = AtomicU16::new(0);
    c.store_rel(0xBEEF);
    assert_eq!(c.fetch_seqcst(), 0xBEEF);
    let mut d = AtomicI16::new(0);
    d.store_acq(-30000);
    assert_eq!(d.fetch(), -30000);
    let mut e = AtomicI32::new(0);
    e.store_seqcst(i32::MIN);
    assert_eq!(e.fetch(), i32::MIN);
    let mut f = AtomicU64::new(0);
    f.store(u64::MAX);
    assert_eq!(f.fetch(), u64::MAX);
    let mut g = AtomicI64::new(0);
    g.store(-1);
    assert_eq!(g.fetch(), -1);
    let mut h = AtomicUSize::new(0);
    h.store(usize::MAX);
    assert_eq!(h.fetch(), usize::MAX);
    let mut i = AtomicISize::new(0);
    i.store(isize::MIN);
    assert_eq!(i.fetch(), isize::MIN);
    let mut j = AtomicBool::new(false);
    j.store(true);
    assert!(j.fetch());
    j.store(false);
    assert!(!j.fetch());
}

#[test]
fn new_and_into_inner() {
    assert_eq!(AtomicU8::new(200).into_inner(), 200);
    assert_eq!(AtomicI16::new(-7).into_inner(), -7);
    assert!(AtomicBool::new(true).into_inner());
    assert!(!AtomicBool::new(false).into_inner());
    assert_eq!(AtomicI64::new(i64::MAX).into_inner(), i64::MAX);
}

#[test]
fn compare_and_swap_takes_effect_on_match() {
    let mut c = AtomicU32::new(5);
    assert_eq!(c.compare_and_swap(5, 9), 5);
    assert_eq!(c.fetch(), 9);
    let mut s = AtomicI8::new(-3);
    assert_eq!(s.compare_and_swap(-3, 100), -3);
    assert_eq!(s.fetch(), 100);
    let mut b = AtomicBool::new(false);
    assert!(!b.compare_and_swap(false, true));
    assert!(b.fetch());
}

#[test]
fn compare_and_swap_leaves_cell_on_mismatch() {
    let mut c = AtomicU32::new(9);
    assert_eq!(c.compare_and_swap(5, 1), 9);
    assert_eq!(c.fetch(), 9);
    let mut s = AtomicI16::new(-3);
    assert_eq!(s.compare_and_swap(3, 0), -3);
    assert_eq!(s.fetch(), -3);
    let mut b = AtomicBool::new(true);
    assert!(b.compare_and_swap(false, false));
    assert!(b.fetch());
}

#[test]
fn swap_returns_prior() {
    let mut c = AtomicU64::new(1);
    assert_eq!(c.swap(2), 1);
    assert_eq!(c.swap_seqcst(3), 2);
    assert_eq!(c.fetch(), 3);
    let mut b = AtomicBool::new(false);
    assert!(!b.swap(true));
    assert!(b.fetch());
}

#[test]
fn add_and_sub_wrap_around() {
    let mut c = AtomicU32::new(u32::MAX);
    assert_eq!(c.fetch_add(1), u32::MAX);
    assert_eq!(c.fetch(), 0);
    assert_eq!(c.fetch_sub(1), 0);
    assert_eq!(c.fetch(), u32::MAX);
    let mut s = AtomicI32::new(i32::MAX);
    assert_eq!(s.fetch_add(1), i32::MAX);
    assert_eq!(s.fetch(), i32::MIN);
    let mut u = AtomicUSize::new(10);
    assert_eq!(u.fetch_sub(3), 10);
    assert_eq!(u.fetch(), 7);
}

#[test]
fn bitwise_operations() {
    let mut c = AtomicU32::new(0b1100);
    assert_eq!(c.fetch_and(0b1010), 0b1100);
    assert_eq!(c.fetch(), 0b1000);
    assert_eq!(c.fetch_or(0b0011), 0b1000);
    assert_eq!(c.fetch(), 0b1011);
    assert_eq!(c.fetch_xor(0b1111), 0b1011);
    assert_eq!(c.fetch(), 0b0100);
}

#[test]
fn max_and_min_follow_signedness() {
    let mut s = AtomicI32::new(-5);
    assert_eq!(s.fetch_max(3), -5);
    assert_eq!(s.fetch(), 3);
    assert_eq!(s.fetch_min(-7), 3);
    assert_eq!(s.fetch(), -7);
    let mut u = AtomicU32::new(5);
    assert_eq!(u.fetch_max(3), 5);
    assert_eq!(u.fetch(), 5);
    assert_eq!(u.fetch_min(3), 5);
    assert_eq!(u.fetch(), 3);
    let mut n = AtomicI8::new(-1);
    assert_eq!(n.fetch_max(1), -1);
    assert_eq!(n.fetch(), 1);
}

#[test]
fn narrow_cell_works_on_its_wide_word() {
    // 255 + 1 carries into the ninth bit of the 32-bit word, which reads as 0
    let mut a = AtomicU8::new(255);
    assert_eq!(a.fetch_add(1), 255);
    assert_eq!(a.fetch(), 0);
    // the word is 256, which is larger than 5, so max keeps it
    assert_eq!(a.fetch_max(5), 0);
    assert_eq!(a.fetch(), 0);
    let mut s = AtomicI8::new(127);
    assert_eq!(s.fetch_add(1), 127);
    assert_eq!(s.fetch(), -128);
}

#[test]
fn bool_uses_integer_word_semantics() {
    let mut b = AtomicBool::new(true);
    assert!(b.fetch_add(true));
    // the word is now 2, and 2 ^ 1 is 3, which still reads as true
    assert!(b.fetch_xor(true));
    assert!(b.fetch());
    let mut m = AtomicBool::new(false);
    assert!(!m.fetch_max(true));
    assert!(m.fetch());
    assert!(m.fetch_min(false));
    assert!(!m.fetch());
    let mut x = AtomicBool::new(true);
    assert!(x.fetch_xor(true));
    assert!(!x.fetch());
    assert!(!x.fetch_or(true));
    assert!(x.fetch_and(false));
    assert!(!x.fetch());
    assert!(!x.fetch_sub(false));
}

#[test]
fn counting_fetch_adds_lose_no_update() {
    let n: u32 = 100;
    let mut c = AtomicU32::new(0);
    let mut priors: Vec<u32> = Vec::new();
    for _ in 0..n {
        priors.push(c.fetch_add(1));
    }
    assert_eq!(c.fetch(), n);
    let expected: Vec<u32> = (0..n).collect();
    assert_eq!(priors, expected);
}

#[test]
fn fetch_and_or_disjoint_ranges_keep_last_writes() {
    let mask_a: u32 = 0x0000_00FF;
    let mask_b: u32 = 0x00FF_0000;
    let mut reg = AtomicU32::new(0xA5A5_A5A5);
    for i in 0..10u32 {
        reg.fetch_and_or(!mask_a, i & 0xFF);
        reg.fetch_and_or(!mask_b, ((i * 3) & 0xFF) << 16);
        reg.fetch_and_or(!mask_a, (i + 100) & 0xFF);
    }
    let w = reg.fetch();
    assert_eq!(w & mask_a, 109);
    assert_eq!(w & mask_b, 27 << 16);
    assert_eq!(w & !(mask_a | mask_b), 0xA500_A500);
}

#[test]
fn fetch_and_or_returns_prior() {
    let mut reg = AtomicI64::new(-1);
    assert_eq!(reg.fetch_and_or(0xF, 0x30), -1);
    assert_eq!(reg.fetch(), 0x3F);
    let mut r2 = AtomicU32::new(0xFFFF_0000);
    assert_eq!(r2.fetch_and_or(!0x0000_FF00, 0x0000_1200), 0xFFFF_0000);
    assert_eq!(r2.fetch(), 0xFFFF_1200);
}

#[test]
fn distinct_narrow_cells_never_alias() {
    let mut a = AtomicU8::new(1);
    let mut b = AtomicU8::new(2);
    a.store(200);
    b.fetch_add(5);
    a.fetch_xor(0xFF);
    assert_eq!(a.fetch(), 55);
    assert_eq!(b.fetch(), 7);
    let mut c = AtomicI16::new(-1);
    let d = AtomicI16::new(-1);
    c.store(0);
    assert_eq!(d.fetch(), -1);
}
