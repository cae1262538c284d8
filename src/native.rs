use vstd::prelude::*;
use crate::atomic::{Atomic, RmwOp, rmw_u32, rmw_i32, rmw_u64, rmw_i64, rmw_usize, rmw_isize};

verus! {

/// A 32-bit unsigned atomic cell; its storage word has the value's own width.
pub struct AtomicU32 {
    word: u32,
}

impl AtomicU32 {
    pub fn new(t: u32) -> (r: AtomicU32)
        ensures
            r.word() == t,
    {
        AtomicU32 { word: t }
    }

    pub fn into_inner(self) -> (r: u32)
        ensures
            r == self.word(),
    {
        self.word
    }

    /// And the word with `and_mask`, then or it with `or_mask`, as one atomic
    /// step, and return the prior value. No ordering.
    pub fn fetch_and_or(&mut self, and_mask: u32, or_mask: u32) -> (r: u32)
        ensures
            r == old(self).word(),
            final(self).word() == (old(self).word() as u32 & and_mask) | or_mask,
    {
        let prior = self.word;
        self.word = (prior & and_mask) | or_mask;
        prior
    }
}

impl Atomic for AtomicU32 {
    type T = u32;

    closed spec fn word(&self) -> int {
        self.word as int
    }

    open spec fn read_word(w: int) -> u32 {
        w as u32
    }

    open spec fn write_word(t: u32) -> int {
        t as int
    }

    open spec fn rmw_word(op: RmwOp, w: int, t: u32) -> int {
        rmw_u32(op, w as u32, t) as int
    }

    open spec fn canonical(w: int) -> bool {
        u32::MIN <= w <= u32::MAX
    }

    fn store(&mut self, t: u32) {
        self.word = t;
    }

    fn store_acq(&mut self, t: u32) {
        self.word = t;
    }

    fn store_rel(&mut self, t: u32) {
        self.word = t;
    }

    fn store_seqcst(&mut self, t: u32) {
        self.word = t;
    }

    fn fetch(&self) -> (r: u32) {
        self.word
    }

    fn fetch_seqcst(&self) -> (r: u32) {
        self.word
    }

    fn swap(&mut self, t: u32) -> (r: u32) {
        let prior = self.word;
        self.word = t;
        prior
    }

    fn swap_seqcst(&mut self, t: u32) -> (r: u32) {
        let prior = self.word;
        self.word = t;
        prior
    }

    fn compare_and_swap(&mut self, compare_to: u32, t: u32) -> (r: u32) {
        let prior = self.word;
        if prior == compare_to {
            self.word = t;
        }
        prior
    }

    fn fetch_add(&mut self, t: u32) -> (r: u32) {
        let prior = self.word;
        self.word = prior.wrapping_add(t);
        prior
    }

    fn fetch_sub(&mut self, t: u32) -> (r: u32) {
        let prior = self.word;
        self.word = prior.wrapping_sub(t);
        prior
    }

    fn fetch_and(&mut self, t: u32) -> (r: u32) {
        let prior = self.word;
        self.word = prior & t;
        prior
    }

    fn fetch_or(&mut self, t: u32) -> (r: u32) {
        let prior = self.word;
        self.word = prior | t;
        prior
    }

    fn fetch_xor(&mut self, t: u32) -> (r: u32) {
        let prior = self.word;
        self.word = prior ^ t;
        prior
    }

    fn fetch_max(&mut self, t: u32) -> (r: u32) {
        let prior = self.word;
        if t > prior {
            self.word = t;
        }
        prior
    }

    fn fetch_min(&mut self, t: u32) -> (r: u32) {
        let prior = self.word;
        if t < prior {
            self.word = t;
        }
        prior
    }

    proof fn lemma_fetch_after_store(t: u32) {
    }

    proof fn lemma_compare_and_swap(w: int, c: u32) {
    }
}

/// A 32-bit signed atomic cell; its storage word has the value's own width.
pub struct AtomicI32 {
    word: i32,
}

impl AtomicI32 {
    pub fn new(t: i32) -> (r: AtomicI32)
        ensures
            r.word() == t,
    {
        AtomicI32 { word: t }
    }

    pub fn into_inner(self) -> (r: i32)
        ensures
            r == self.word(),
    {
        self.word
    }

    /// And the word with `and_mask`, then or it with `or_mask`, as one atomic
    /// step, and return the prior value. No ordering.
    pub fn fetch_and_or(&mut self, and_mask: i32, or_mask: i32) -> (r: i32)
        ensures
            r == old(self).word(),
            final(self).word() == (old(self).word() as i32 & and_mask) | or_mask,
    {
        let prior = self.word;
        self.word = (prior & and_mask) | or_mask;
        prior
    }
}

impl Atomic for AtomicI32 {
    type T = i32;

    closed spec fn word(&self) -> int {
        self.word as int
    }

    open spec fn read_word(w: int) -> i32 {
        w as i32
    }

    open spec fn write_word(t: i32) -> int {
        t as int
    }

    open spec fn rmw_word(op: RmwOp, w: int, t: i32) -> int {
        rmw_i32(op, w as i32, t) as int
    }

    open spec fn canonical(w: int) -> bool {
        i32::MIN <= w <= i32::MAX
    }

    fn store(&mut self, t: i32) {
        self.word = t;
    }

    fn store_acq(&mut self, t: i32) {
        self.word = t;
    }

    fn store_rel(&mut self, t: i32) {
        self.word = t;
    }

    fn store_seqcst(&mut self, t: i32) {
        self.word = t;
    }

    fn fetch(&self) -> (r: i32) {
        self.word
    }

    fn fetch_seqcst(&self) -> (r: i32) {
        self.word
    }

    fn swap(&mut self, t: i32) -> (r: i32) {
        let prior = self.word;
        self.word = t;
        prior
    }

    fn swap_seqcst(&mut self, t: i32) -> (r: i32) {
        let prior = self.word;
        self.word = t;
        prior
    }

    fn compare_and_swap(&mut self, compare_to: i32, t: i32) -> (r: i32) {
        let prior = self.word;
        if prior == compare_to {
            self.word = t;
        }
        prior
    }

    fn fetch_add(&mut self, t: i32) -> (r: i32) {
        let prior = self.word;
        self.word = prior.wrapping_add(t);
        prior
    }

    fn fetch_sub(&mut self, t: i32) -> (r: i32) {
        let prior = self.word;
        self.word = prior.wrapping_sub(t);
        prior
    }

    fn fetch_and(&mut self, t: i32) -> (r: i32) {
        let prior = self.word;
        self.word = prior & t;
        prior
    }

    fn fetch_or(&mut self, t: i32) -> (r: i32) {
        let prior = self.word;
        self.word = prior | t;
        prior
    }

    fn fetch_xor(&mut self, t: i32) -> (r: i32) {
        let prior = self.word;
        self.word = prior ^ t;
        prior
    }

    fn fetch_max(&mut self, t: i32) -> (r: i32) {
        let prior = self.word;
        if t > prior {
            self.word = t;
        }
        prior
    }

    fn fetch_min(&mut self, t: i32) -> (r: i32) {
        let prior = self.word;
        if t < prior {
            self.word = t;
        }
        prior
    }

    proof fn lemma_fetch_after_store(t: i32) {
    }

    proof fn lemma_compare_and_swap(w: int, c: i32) {
    }
}

/// A 64-bit unsigned atomic cell; its storage word has the value's own width.
pub struct AtomicU64 {
    word: u64,
}

impl AtomicU64 {
    pub fn new(t: u64) -> (r: AtomicU64)
        ensures
            r.word() == t,
    {
        AtomicU64 { word: t }
    }

    pub fn into_inner(self) -> (r: u64)
        ensures
            r == self.word(),
    {
        self.word
    }

    /// And the word with `and_mask`, then or it with `or_mask`, as one atomic
    /// step, and return the prior value. No ordering.
    pub fn fetch_and_or(&mut self, and_mask: u64, or_mask: u64) -> (r: u64)
        ensures
            r == old(self).word(),
            final(self).word() == (old(self).word() as u64 & and_mask) | or_mask,
    {
        let prior = self.word;
        self.word = (prior & and_mask) | or_mask;
        prior
    }
}

impl Atomic for AtomicU64 {
    type T = u64;

    closed spec fn word(&self) -> int {
        self.word as int
    }

    open spec fn read_word(w: int) -> u64 {
        w as u64
    }

    open spec fn write_word(t: u64) -> int {
        t as int
    }

    open spec fn rmw_word(op: RmwOp, w: int, t: u64) -> int {
        rmw_u64(op, w as u64, t) as int
    }

    open spec fn canonical(w: int) -> bool {
        u64::MIN <= w <= u64::MAX
    }

    fn store(&mut self, t: u64) {
        self.word = t;
    }

    fn store_acq(&mut self, t: u64) {
        self.word = t;
    }

    fn store_rel(&mut self, t: u64) {
        self.word = t;
    }

    fn store_seqcst(&mut self, t: u64) {
        self.word = t;
    }

    fn fetch(&self) -> (r: u64) {
        self.word
    }

    fn fetch_seqcst(&self) -> (r: u64) {
        self.word
    }

    fn swap(&mut self, t: u64) -> (r: u64) {
        let prior = self.word;
        self.word = t;
        prior
    }

    fn swap_seqcst(&mut self, t: u64) -> (r: u64) {
        let prior = self.word;
        self.word = t;
        prior
    }

    fn compare_and_swap(&mut self, compare_to: u64, t: u64) -> (r: u64) {
        let prior = self.word;
        if prior == compare_to {
            self.word = t;
        }
        prior
    }

    fn fetch_add(&mut self, t: u64) -> (r: u64) {
        let prior = self.word;
        self.word = prior.wrapping_add(t);
        prior
    }

    fn fetch_sub(&mut self, t: u64) -> (r: u64) {
        let prior = self.word;
        self.word = prior.wrapping_sub(t);
        prior
    }

    fn fetch_and(&mut self, t: u64) -> (r: u64) {
        let prior = self.word;
        self.word = prior & t;
        prior
    }

    fn fetch_or(&mut self, t: u64) -> (r: u64) {
        let prior = self.word;
        self.word = prior | t;
        prior
    }

    fn fetch_xor(&mut self, t: u64) -> (r: u64) {
        let prior = self.word;
        self.word = prior ^ t;
        prior
    }

    fn fetch_max(&mut self, t: u64) -> (r: u64) {
        let prior = self.word;
        if t > prior {
            self.word = t;
        }
        prior
    }

    fn fetch_min(&mut self, t: u64) -> (r: u64) {
        let prior = self.word;
        if t < prior {
            self.word = t;
        }
        prior
    }

    proof fn lemma_fetch_after_store(t: u64) {
    }

    proof fn lemma_compare_and_swap(w: int, c: u64) {
    }
}

/// A 64-bit signed atomic cell; its storage word has the value's own width.
pub struct AtomicI64 {
    word: i64,
}

impl AtomicI64 {
    pub fn new(t: i64) -> (r: AtomicI64)
        ensures
            r.word() == t,
    {
        AtomicI64 { word: t }
    }

    pub fn into_inner(self) -> (r: i64)
        ensures
            r == self.word(),
    {
        self.word
    }

    /// And the word with `and_mask`, then or it with `or_mask`, as one atomic
    /// step, and return the prior value. No ordering.
    pub fn fetch_and_or(&mut self, and_mask: i64, or_mask: i64) -> (r: i64)
        ensures
            r == old(self).word(),
            final(self).word() == (old(self).word() as i64 & and_mask) | or_mask,
    {
        let prior = self.word;
        self.word = (prior & and_mask) | or_mask;
        prior
    }
}

impl Atomic for AtomicI64 {
    type T = i64;

    closed spec fn word(&self) -> int {
        self.word as int
    }

    open spec fn read_word(w: int) -> i64 {
        w as i64
    }

    open spec fn write_word(t: i64) -> int {
        t as int
    }

    open spec fn rmw_word(op: RmwOp, w: int, t: i64) -> int {
        rmw_i64(op, w as i64, t) as int
    }

    open spec fn canonical(w: int) -> bool {
        i64::MIN <= w <= i64::MAX
    }

    fn store(&mut self, t: i64) {
        self.word = t;
    }

    fn store_acq(&mut self, t: i64) {
        self.word = t;
    }

    fn store_rel(&mut self, t: i64) {
        self.word = t;
    }

    fn store_seqcst(&mut self, t: i64) {
        self.word = t;
    }

    fn fetch(&self) -> (r: i64) {
        self.word
    }

    fn fetch_seqcst(&self) -> (r: i64) {
        self.word
    }

    fn swap(&mut self, t: i64) -> (r: i64) {
        let prior = self.word;
        self.word = t;
        prior
    }

    fn swap_seqcst(&mut self, t: i64) -> (r: i64) {
        let prior = self.word;
        self.word = t;
        prior
    }

    fn compare_and_swap(&mut self, compare_to: i64, t: i64) -> (r: i64) {
        let prior = self.word;
        if prior == compare_to {
            self.word = t;
        }
        prior
    }

    fn fetch_add(&mut self, t: i64) -> (r: i64) {
        let prior = self.word;
        self.word = prior.wrapping_add(t);
        prior
    }

    fn fetch_sub(&mut self, t: i64) -> (r: i64) {
        let prior = self.word;
        self.word = prior.wrapping_sub(t);
        prior
    }

    fn fetch_and(&mut self, t: i64) -> (r: i64) {
        let prior = self.word;
        self.word = prior & t;
        prior
    }

    fn fetch_or(&mut self, t: i64) -> (r: i64) {
        let prior = self.word;
        self.word = prior | t;
        prior
    }

    fn fetch_xor(&mut self, t: i64) -> (r: i64) {
        let prior = self.word;
        self.word = prior ^ t;
        prior
    }

    fn fetch_max(&mut self, t: i64) -> (r: i64) {
        let prior = self.word;
        if t > prior {
            self.word = t;
        }
        prior
    }

    fn fetch_min(&mut self, t: i64) -> (r: i64) {
        let prior = self.word;
        if t < prior {
            self.word = t;
        }
        prior
    }

    proof fn lemma_fetch_after_store(t: i64) {
    }

    proof fn lemma_compare_and_swap(w: int, c: i64) {
    }
}

/// A pointer-sized unsigned atomic cell; its storage word has the value's own width.
pub struct AtomicUSize {
    word: usize,
}

impl AtomicUSize {
    pub fn new(t: usize) -> (r: AtomicUSize)
        ensures
            r.word() == t,
    {
        AtomicUSize { word: t }
    }

    pub fn into_inner(self) -> (r: usize)
        ensures
            r == self.word(),
    {
        self.word
    }

    /// And the word with `and_mask`, then or it with `or_mask`, as one atomic
    /// step, and return the prior value. No ordering.
    pub fn fetch_and_or(&mut self, and_mask: usize, or_mask: usize) -> (r: usize)
        ensures
            r == old(self).word(),
            final(self).word() == (old(self).word() as usize & and_mask) | or_mask,
    {
        let prior = self.word;
        self.word = (prior & and_mask) | or_mask;
        prior
    }
}

impl Atomic for AtomicUSize {
    type T = usize;

    closed spec fn word(&self) -> int {
        self.word as int
    }

    open spec fn read_word(w: int) -> usize {
        w as usize
    }

    open spec fn write_word(t: usize) -> int {
        t as int
    }

    open spec fn rmw_word(op: RmwOp, w: int, t: usize) -> int {
        rmw_usize(op, w as usize, t) as int
    }

    open spec fn canonical(w: int) -> bool {
        usize::MIN <= w <= usize::MAX
    }

    fn store(&mut self, t: usize) {
        self.word = t;
    }

    fn store_acq(&mut self, t: usize) {
        self.word = t;
    }

    fn store_rel(&mut self, t: usize) {
        self.word = t;
    }

    fn store_seqcst(&mut self, t: usize) {
        self.word = t;
    }

    fn fetch(&self) -> (r: usize) {
        self.word
    }

    fn fetch_seqcst(&self) -> (r: usize) {
        self.word
    }

    fn swap(&mut self, t: usize) -> (r: usize) {
        let prior = self.word;
        self.word = t;
        prior
    }

    fn swap_seqcst(&mut self, t: usize) -> (r: usize) {
        let prior = self.word;
        self.word = t;
        prior
    }

    fn compare_and_swap(&mut self, compare_to: usize, t: usize) -> (r: usize) {
        let prior = self.word;
        if prior == compare_to {
            self.word = t;
        }
        prior
    }

    fn fetch_add(&mut self, t: usize) -> (r: usize) {
        let prior = self.word;
        self.word = prior.wrapping_add(t);
        prior
    }

    fn fetch_sub(&mut self, t: usize) -> (r: usize) {
        let prior = self.word;
        self.word = prior.wrapping_sub(t);
        prior
    }

    fn fetch_and(&mut self, t: usize) -> (r: usize) {
        let prior = self.word;
        self.word = prior & t;
        prior
    }

    fn fetch_or(&mut self, t: usize) -> (r: usize) {
        let prior = self.word;
        self.word = prior | t;
        prior
    }

    fn fetch_xor(&mut self, t: usize) -> (r: usize) {
        let prior = self.word;
        self.word = prior ^ t;
        prior
    }

    fn fetch_max(&mut self, t: usize) -> (r: usize) {
        let prior = self.word;
        if t > prior {
            self.word = t;
        }
        prior
    }

    fn fetch_min(&mut self, t: usize) -> (r: usize) {
        let prior = self.word;
        if t < prior {
            self.word = t;
        }
        prior
    }

    proof fn lemma_fetch_after_store(t: usize) {
    }

    proof fn lemma_compare_and_swap(w: int, c: usize) {
    }
}

/// A pointer-sized signed atomic cell; its storage word has the value's own width.
pub struct AtomicISize {
    word: isize,
}

impl AtomicISize {
    pub fn new(t: isize) -> (r: AtomicISize)
        ensures
            r.word() == t,
    {
        AtomicISize { word: t }
    }

    pub fn into_inner(self) -> (r: isize)
        ensures
            r == self.word(),
    {
        self.word
    }

    /// And the word with `and_mask`, then or it with `or_mask`, as one atomic
    /// step, and return the prior value. No ordering.
    pub fn fetch_and_or(&mut self, and_mask: isize, or_mask: isize) -> (r: isize)
        ensures
            r == old(self).word(),
            final(self).word() == (old(self).word() as isize & and_mask) | or_mask,
    {
        let prior = self.word;
        self.word = (prior & and_mask) | or_mask;
        prior
    }
}

impl Atomic for AtomicISize {
    type T = isize;

    closed spec fn word(&self) -> int {
        self.word as int
    }

    open spec fn read_word(w: int) -> isize {
        w as isize
    }

    open spec fn write_word(t: isize) -> int {
        t as int
    }

    open spec fn rmw_word(op: RmwOp, w: int, t: isize) -> int {
        rmw_isize(op, w as isize, t) as int
    }

    open spec fn canonical(w: int) -> bool {
        isize::MIN <= w <= isize::MAX
    }

    fn store(&mut self, t: isize) {
        self.word = t;
    }

    fn store_acq(&mut self, t: isize) {
        self.word = t;
    }

    fn store_rel(&mut self, t: isize) {
        self.word = t;
    }

    fn store_seqcst(&mut self, t: isize) {
        self.word = t;
    }

    fn fetch(&self) -> (r: isize) {
        self.word
    }

    fn fetch_seqcst(&self) -> (r: isize) {
        self.word
    }

    fn swap(&mut self, t: isize) -> (r: isize) {
        let prior = self.word;
        self.word = t;
        prior
    }

    fn swap_seqcst(&mut self, t: isize) -> (r: isize) {
        let prior = self.word;
        self.word = t;
        prior
    }

    fn compare_and_swap(&mut self, compare_to: isize, t: isize) -> (r: isize) {
        let prior = self.word;
        if prior == compare_to {
            self.word = t;
        }
        prior
    }

    fn fetch_add(&mut self, t: isize) -> (r: isize) {
        let prior = self.word;
        self.word = prior.wrapping_add(t);
        prior
    }

    fn fetch_sub(&mut self, t: isize) -> (r: isize) {
        let prior = self.word;
        self.word = prior.wrapping_sub(t);
        prior
    }

    fn fetch_and(&mut self, t: isize) -> (r: isize) {
        let prior = self.word;
        self.word = prior & t;
        prior
    }

    fn fetch_or(&mut self, t: isize) -> (r: isize) {
        let prior = self.word;
        self.word = prior | t;
        prior
    }

    fn fetch_xor(&mut self, t: isize) -> (r: isize) {
        let prior = self.word;
        self.word = prior ^ t;
        prior
    }

    fn fetch_max(&mut self, t: isize) -> (r: isize) {
        let prior = self.word;
        if t > prior {
            self.word = t;
        }
        prior
    }

    fn fetch_min(&mut self, t: isize) -> (r: isize) {
        let prior = self.word;
        if t < prior {
            self.word = t;
        }
        prior
    }

    proof fn lemma_fetch_after_store(t: isize) {
    }

    proof fn lemma_compare_and_swap(w: int, c: isize) {
    }
}

} // verus!
