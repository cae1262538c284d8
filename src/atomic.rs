use vstd::prelude::*;

verus! {

/// The read-modify-write operations of the atomic contract.
pub enum RmwOp {
    Add,
    Sub,
    And,
    Or,
    Xor,
    Max,
    Min,
}

/// What a 32-bit unsigned storage word becomes when `op` combines it with `t`.
pub open spec fn rmw_u32(op: RmwOp, w: u32, t: u32) -> u32 {
    match op {
        RmwOp::Add => w.wrapping_add(t),
        RmwOp::Sub => w.wrapping_sub(t),
        RmwOp::And => w & t,
        RmwOp::Or => w | t,
        RmwOp::Xor => w ^ t,
        RmwOp::Max => if w >= t { w } else { t },
        RmwOp::Min => if w <= t { w } else { t },
    }
}

/// What a 32-bit signed storage word becomes when `op` combines it with `t`.
pub open spec fn rmw_i32(op: RmwOp, w: i32, t: i32) -> i32 {
    match op {
        RmwOp::Add => w.wrapping_add(t),
        RmwOp::Sub => w.wrapping_sub(t),
        RmwOp::And => w & t,
        RmwOp::Or => w | t,
        RmwOp::Xor => w ^ t,
        RmwOp::Max => if w >= t { w } else { t },
        RmwOp::Min => if w <= t { w } else { t },
    }
}

/// What a 64-bit unsigned storage word becomes when `op` combines it with `t`.
pub open spec fn rmw_u64(op: RmwOp, w: u64, t: u64) -> u64 {
    match op {
        RmwOp::Add => w.wrapping_add(t),
        RmwOp::Sub => w.wrapping_sub(t),
        RmwOp::And => w & t,
        RmwOp::Or => w | t,
        RmwOp::Xor => w ^ t,
        RmwOp::Max => if w >= t { w } else { t },
        RmwOp::Min => if w <= t { w } else { t },
    }
}

/// What a 64-bit signed storage word becomes when `op` combines it with `t`.
pub open spec fn rmw_i64(op: RmwOp, w: i64, t: i64) -> i64 {
    match op {
        RmwOp::Add => w.wrapping_add(t),
        RmwOp::Sub => w.wrapping_sub(t),
        RmwOp::And => w & t,
        RmwOp::Or => w | t,
        RmwOp::Xor => w ^ t,
        RmwOp::Max => if w >= t { w } else { t },
        RmwOp::Min => if w <= t { w } else { t },
    }
}

/// What a pointer-sized unsigned storage word becomes when `op` combines it with `t`.
pub open spec fn rmw_usize(op: RmwOp, w: usize, t: usize) -> usize {
    match op {
        RmwOp::Add => w.wrapping_add(t),
        RmwOp::Sub => w.wrapping_sub(t),
        RmwOp::And => w & t,
        RmwOp::Or => w | t,
        RmwOp::Xor => w ^ t,
        RmwOp::Max => if w >= t { w } else { t },
        RmwOp::Min => if w <= t { w } else { t },
    }
}

/// What a pointer-sized signed storage word becomes when `op` combines it with `t`.
pub open spec fn rmw_isize(op: RmwOp, w: isize, t: isize) -> isize {
    match op {
        RmwOp::Add => w.wrapping_add(t),
        RmwOp::Sub => w.wrapping_sub(t),
        RmwOp::And => w & t,
        RmwOp::Or => w | t,
        RmwOp::Xor => w ^ t,
        RmwOp::Max => if w >= t { w } else { t },
        RmwOp::Min => if w <= t { w } else { t },
    }
}

/// The operations of an atomic cell, stated over the cell's storage word.
///
/// A cell keeps its value in a storage word at least as wide as the value.
/// Every operation takes effect as one indivisible step; the contract states
/// that step. The ordering suffixes (`_acq`, `_rel`, `_seqcst`) say how the
/// step is ordered against other memory accesses and do not change its value.
pub trait Atomic: Sized {
    type T;

    /// The storage word, as an integer.
    spec fn word(&self) -> int;

    /// The value that the storage word `w` reads as.
    spec fn read_word(w: int) -> Self::T;

    /// The storage word that the value `t` is written as.
    spec fn write_word(t: Self::T) -> int;

    /// The storage word after `op` combines the word `w` with the operand `t`.
    spec fn rmw_word(op: RmwOp, w: int, t: Self::T) -> int;

    /// A storage word that some value was written as.
    spec fn canonical(w: int) -> bool;

    /// Store a value. No ordering.
    fn store(&mut self, t: Self::T)
        ensures
            final(self).word() == Self::write_word(t),
    ;

    /// Store a value with acquire ordering.
    fn store_acq(&mut self, t: Self::T)
        ensures
            final(self).word() == Self::write_word(t),
    ;

    /// Store a value with release ordering.
    fn store_rel(&mut self, t: Self::T)
        ensures
            final(self).word() == Self::write_word(t),
    ;

    /// Store a value with sequentially consistent ordering.
    fn store_seqcst(&mut self, t: Self::T)
        ensures
            final(self).word() == Self::write_word(t),
    ;

    /// Read the value. No ordering.
    fn fetch(&self) -> (r: Self::T)
        ensures
            r == Self::read_word(self.word()),
    ;

    /// Read the value with sequentially consistent ordering.
    fn fetch_seqcst(&self) -> (r: Self::T)
        ensures
            r == Self::read_word(self.word()),
    ;

    /// Replace the value and return the prior one. No ordering.
    fn swap(&mut self, t: Self::T) -> (r: Self::T)
        ensures
            r == Self::read_word(old(self).word()),
            final(self).word() == Self::write_word(t),
    ;

    /// Replace the value and return the prior one, sequentially consistent.
    fn swap_seqcst(&mut self, t: Self::T) -> (r: Self::T)
        ensures
            r == Self::read_word(old(self).word()),
            final(self).word() == Self::write_word(t),
    ;

    /// Write `t` if the cell holds `compare_to`, and return the prior value.
    /// Always sequentially consistent.
    fn compare_and_swap(&mut self, compare_to: Self::T, t: Self::T) -> (r: Self::T)
        ensures
            r == Self::read_word(old(self).word()),
            old(self).word() == Self::write_word(compare_to) ==> final(self).word()
                == Self::write_word(t),
            old(self).word() != Self::write_word(compare_to) ==> final(self).word() == old(
                self,
            ).word(),
    ;

    /// Add `t` with wrap-around and return the prior value. Atomic, no ordering.
    fn fetch_add(&mut self, t: Self::T) -> (r: Self::T)
        ensures
            r == Self::read_word(old(self).word()),
            final(self).word() == Self::rmw_word(RmwOp::Add, old(self).word(), t),
    ;

    /// Subtract `t` with wrap-around and return the prior value. Atomic, no ordering.
    fn fetch_sub(&mut self, t: Self::T) -> (r: Self::T)
        ensures
            r == Self::read_word(old(self).word()),
            final(self).word() == Self::rmw_word(RmwOp::Sub, old(self).word(), t),
    ;

    /// Bitwise and with `t`, and return the prior value. Atomic, no ordering.
    fn fetch_and(&mut self, t: Self::T) -> (r: Self::T)
        ensures
            r == Self::read_word(old(self).word()),
            final(self).word() == Self::rmw_word(RmwOp::And, old(self).word(), t),
    ;

    /// Bitwise or with `t`, and return the prior value. Atomic, no ordering.
    fn fetch_or(&mut self, t: Self::T) -> (r: Self::T)
        ensures
            r == Self::read_word(old(self).word()),
            final(self).word() == Self::rmw_word(RmwOp::Or, old(self).word(), t),
    ;

    /// Bitwise xor with `t`, and return the prior value. Atomic, no ordering.
    fn fetch_xor(&mut self, t: Self::T) -> (r: Self::T)
        ensures
            r == Self::read_word(old(self).word()),
            final(self).word() == Self::rmw_word(RmwOp::Xor, old(self).word(), t),
    ;

    /// Keep the larger of the word and `t`, and return the prior value.
    /// Atomic, no ordering.
    fn fetch_max(&mut self, t: Self::T) -> (r: Self::T)
        ensures
            r == Self::read_word(old(self).word()),
            final(self).word() == Self::rmw_word(RmwOp::Max, old(self).word(), t),
    ;

    /// Keep the smaller of the word and `t`, and return the prior value.
    /// Atomic, no ordering.
    fn fetch_min(&mut self, t: Self::T) -> (r: Self::T)
        ensures
            r == Self::read_word(old(self).word()),
            final(self).word() == Self::rmw_word(RmwOp::Min, old(self).word(), t),
    ;

    /// A stored value reads back unchanged.
    proof fn lemma_fetch_after_store(t: Self::T)
        ensures
            Self::read_word(Self::write_word(t)) == t,
            Self::canonical(Self::write_word(t)),
    ;

    /// On a canonical word, `compare_and_swap(c, _)` takes effect exactly when
    /// the cell reads as `c`.
    proof fn lemma_compare_and_swap(w: int, c: Self::T)
        requires
            Self::canonical(w),
        ensures
            (w == Self::write_word(c)) <==> (Self::read_word(w) == c),
    ;
}

} // verus!
