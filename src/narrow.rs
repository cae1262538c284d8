use vstd::prelude::*;
use crate::atomic::{Atomic, RmwOp, rmw_u32, rmw_i32};
use crate::native::{AtomicU32, AtomicI32};

verus! {

/// An 8-bit unsigned atomic cell. The target has no atomic operation of this width,
/// so the cell owns a `u32` cell of its own, shared with no other cell, and
/// performs every operation on that word: a value is widened on the way in
/// and truncated on the way out.
pub struct AtomicU8 {
    inner: AtomicU32,
}

impl AtomicU8 {
    pub fn new(t: u8) -> (r: AtomicU8)
        ensures
            r.word() == Self::write_word(t),
    {
        AtomicU8 { inner: AtomicU32::new(t as u32) }
    }

    pub fn into_inner(self) -> (r: u8)
        ensures
            r == Self::read_word(self.word()),
    {
        self.inner.into_inner() as u8
    }
}

impl Atomic for AtomicU8 {
    type T = u8;

    closed spec fn word(&self) -> int {
        self.inner.word()
    }

    open spec fn read_word(w: int) -> u8 {
        (w as u32) as u8
    }

    open spec fn write_word(t: u8) -> int {
        (t as u32) as int
    }

    open spec fn rmw_word(op: RmwOp, w: int, t: u8) -> int {
        rmw_u32(op, w as u32, t as u32) as int
    }

    open spec fn canonical(w: int) -> bool {
        u8::MIN <= w <= u8::MAX
    }

    fn store(&mut self, t: u8) {
        self.inner.store(t as u32)
    }

    fn store_acq(&mut self, t: u8) {
        self.inner.store_acq(t as u32)
    }

    fn store_rel(&mut self, t: u8) {
        self.inner.store_rel(t as u32)
    }

    fn store_seqcst(&mut self, t: u8) {
        self.inner.store_seqcst(t as u32)
    }

    fn fetch(&self) -> (r: u8) {
        self.inner.fetch() as u8
    }

    fn fetch_seqcst(&self) -> (r: u8) {
        self.inner.fetch_seqcst() as u8
    }

    fn swap(&mut self, t: u8) -> (r: u8) {
        self.inner.swap(t as u32) as u8
    }

    fn swap_seqcst(&mut self, t: u8) -> (r: u8) {
        self.inner.swap_seqcst(t as u32) as u8
    }

    fn fetch_add(&mut self, t: u8) -> (r: u8) {
        self.inner.fetch_add(t as u32) as u8
    }

    fn fetch_sub(&mut self, t: u8) -> (r: u8) {
        self.inner.fetch_sub(t as u32) as u8
    }

    fn fetch_and(&mut self, t: u8) -> (r: u8) {
        self.inner.fetch_and(t as u32) as u8
    }

    fn fetch_or(&mut self, t: u8) -> (r: u8) {
        self.inner.fetch_or(t as u32) as u8
    }

    fn fetch_xor(&mut self, t: u8) -> (r: u8) {
        self.inner.fetch_xor(t as u32) as u8
    }

    fn fetch_max(&mut self, t: u8) -> (r: u8) {
        self.inner.fetch_max(t as u32) as u8
    }

    fn fetch_min(&mut self, t: u8) -> (r: u8) {
        self.inner.fetch_min(t as u32) as u8
    }

    fn compare_and_swap(&mut self, compare_to: u8, t: u8) -> (r: u8) {
        self.inner.compare_and_swap(compare_to as u32, t as u32) as u8
    }

    proof fn lemma_fetch_after_store(t: u8) {
        assert(((t as u32) as u8) == t) by (bit_vector);
    }

    proof fn lemma_compare_and_swap(w: int, c: u8) {
        let v = w as u8;
        assert(((v as u32) as u8) == v) by (bit_vector);
    }
}

/// An 8-bit signed atomic cell. The target has no atomic operation of this width,
/// so the cell owns an `i32` cell of its own, shared with no other cell, and
/// performs every operation on that word: a value is widened on the way in
/// and truncated on the way out.
pub struct AtomicI8 {
    inner: AtomicI32,
}

impl AtomicI8 {
    pub fn new(t: i8) -> (r: AtomicI8)
        ensures
            r.word() == Self::write_word(t),
    {
        AtomicI8 { inner: AtomicI32::new(t as i32) }
    }

    pub fn into_inner(self) -> (r: i8)
        ensures
            r == Self::read_word(self.word()),
    {
        self.inner.into_inner() as i8
    }
}

impl Atomic for AtomicI8 {
    type T = i8;

    closed spec fn word(&self) -> int {
        self.inner.word()
    }

    open spec fn read_word(w: int) -> i8 {
        (w as i32) as i8
    }

    open spec fn write_word(t: i8) -> int {
        (t as i32) as int
    }

    open spec fn rmw_word(op: RmwOp, w: int, t: i8) -> int {
        rmw_i32(op, w as i32, t as i32) as int
    }

    open spec fn canonical(w: int) -> bool {
        i8::MIN <= w <= i8::MAX
    }

    fn store(&mut self, t: i8) {
        self.inner.store(t as i32)
    }

    fn store_acq(&mut self, t: i8) {
        self.inner.store_acq(t as i32)
    }

    fn store_rel(&mut self, t: i8) {
        self.inner.store_rel(t as i32)
    }

    fn store_seqcst(&mut self, t: i8) {
        self.inner.store_seqcst(t as i32)
    }

    fn fetch(&self) -> (r: i8) {
        self.inner.fetch() as i8
    }

    fn fetch_seqcst(&self) -> (r: i8) {
        self.inner.fetch_seqcst() as i8
    }

    fn swap(&mut self, t: i8) -> (r: i8) {
        self.inner.swap(t as i32) as i8
    }

    fn swap_seqcst(&mut self, t: i8) -> (r: i8) {
        self.inner.swap_seqcst(t as i32) as i8
    }

    fn fetch_add(&mut self, t: i8) -> (r: i8) {
        self.inner.fetch_add(t as i32) as i8
    }

    fn fetch_sub(&mut self, t: i8) -> (r: i8) {
        self.inner.fetch_sub(t as i32) as i8
    }

    fn fetch_and(&mut self, t: i8) -> (r: i8) {
        self.inner.fetch_and(t as i32) as i8
    }

    fn fetch_or(&mut self, t: i8) -> (r: i8) {
        self.inner.fetch_or(t as i32) as i8
    }

    fn fetch_xor(&mut self, t: i8) -> (r: i8) {
        self.inner.fetch_xor(t as i32) as i8
    }

    fn fetch_max(&mut self, t: i8) -> (r: i8) {
        self.inner.fetch_max(t as i32) as i8
    }

    fn fetch_min(&mut self, t: i8) -> (r: i8) {
        self.inner.fetch_min(t as i32) as i8
    }

    fn compare_and_swap(&mut self, compare_to: i8, t: i8) -> (r: i8) {
        self.inner.compare_and_swap(compare_to as i32, t as i32) as i8
    }

    proof fn lemma_fetch_after_store(t: i8) {
        assert(((t as i32) as i8) == t) by (bit_vector);
    }

    proof fn lemma_compare_and_swap(w: int, c: i8) {
        let v = w as i8;
        assert(((v as i32) as i8) == v) by (bit_vector);
    }
}

/// A 16-bit unsigned atomic cell. The target has no atomic operation of this width,
/// so the cell owns a `u32` cell of its own, shared with no other cell, and
/// performs every operation on that word: a value is widened on the way in
/// and truncated on the way out.
pub struct AtomicU16 {
    inner: AtomicU32,
}

impl AtomicU16 {
    pub fn new(t: u16) -> (r: AtomicU16)
        ensures
            r.word() == Self::write_word(t),
    {
        AtomicU16 { inner: AtomicU32::new(t as u32) }
    }

    pub fn into_inner(self) -> (r: u16)
        ensures
            r == Self::read_word(self.word()),
    {
        self.inner.into_inner() as u16
    }
}

impl Atomic for AtomicU16 {
    type T = u16;

    closed spec fn word(&self) -> int {
        self.inner.word()
    }

    open spec fn read_word(w: int) -> u16 {
        (w as u32) as u16
    }

    open spec fn write_word(t: u16) -> int {
        (t as u32) as int
    }

    open spec fn rmw_word(op: RmwOp, w: int, t: u16) -> int {
        rmw_u32(op, w as u32, t as u32) as int
    }

    open spec fn canonical(w: int) -> bool {
        u16::MIN <= w <= u16::MAX
    }

    fn store(&mut self, t: u16) {
        self.inner.store(t as u32)
    }

    fn store_acq(&mut self, t: u16) {
        self.inner.store_acq(t as u32)
    }

    fn store_rel(&mut self, t: u16) {
        self.inner.store_rel(t as u32)
    }

    fn store_seqcst(&mut self, t: u16) {
        self.inner.store_seqcst(t as u32)
    }

    fn fetch(&self) -> (r: u16) {
        self.inner.fetch() as u16
    }

    fn fetch_seqcst(&self) -> (r: u16) {
        self.inner.fetch_seqcst() as u16
    }

    fn swap(&mut self, t: u16) -> (r: u16) {
        self.inner.swap(t as u32) as u16
    }

    fn swap_seqcst(&mut self, t: u16) -> (r: u16) {
        self.inner.swap_seqcst(t as u32) as u16
    }

    fn fetch_add(&mut self, t: u16) -> (r: u16) {
        self.inner.fetch_add(t as u32) as u16
    }

    fn fetch_sub(&mut self, t: u16) -> (r: u16) {
        self.inner.fetch_sub(t as u32) as u16
    }

    fn fetch_and(&mut self, t: u16) -> (r: u16) {
        self.inner.fetch_and(t as u32) as u16
    }

    fn fetch_or(&mut self, t: u16) -> (r: u16) {
        self.inner.fetch_or(t as u32) as u16
    }

    fn fetch_xor(&mut self, t: u16) -> (r: u16) {
        self.inner.fetch_xor(t as u32) as u16
    }

    fn fetch_max(&mut self, t: u16) -> (r: u16) {
        self.inner.fetch_max(t as u32) as u16
    }

    fn fetch_min(&mut self, t: u16) -> (r: u16) {
        self.inner.fetch_min(t as u32) as u16
    }

    fn compare_and_swap(&mut self, compare_to: u16, t: u16) -> (r: u16) {
        self.inner.compare_and_swap(compare_to as u32, t as u32) as u16
    }

    proof fn lemma_fetch_after_store(t: u16) {
        assert(((t as u32) as u16) == t) by (bit_vector);
    }

    proof fn lemma_compare_and_swap(w: int, c: u16) {
        let v = w as u16;
        assert(((v as u32) as u16) == v) by (bit_vector);
    }
}

/// A 16-bit signed atomic cell. The target has no atomic operation of this width,
/// so the cell owns an `i32` cell of its own, shared with no other cell, and
/// performs every operation on that word: a value is widened on the way in
/// and truncated on the way out.
pub struct AtomicI16 {
    inner: AtomicI32,
}

impl AtomicI16 {
    pub fn new(t: i16) -> (r: AtomicI16)
        ensures
            r.word() == Self::write_word(t),
    {
        AtomicI16 { inner: AtomicI32::new(t as i32) }
    }

    pub fn into_inner(self) -> (r: i16)
        ensures
            r == Self::read_word(self.word()),
    {
        self.inner.into_inner() as i16
    }
}

impl Atomic for AtomicI16 {
    type T = i16;

    closed spec fn word(&self) -> int {
        self.inner.word()
    }

    open spec fn read_word(w: int) -> i16 {
        (w as i32) as i16
    }

    open spec fn write_word(t: i16) -> int {
        (t as i32) as int
    }

    open spec fn rmw_word(op: RmwOp, w: int, t: i16) -> int {
        rmw_i32(op, w as i32, t as i32) as int
    }

    open spec fn canonical(w: int) -> bool {
        i16::MIN <= w <= i16::MAX
    }

    fn store(&mut self, t: i16) {
        self.inner.store(t as i32)
    }

    fn store_acq(&mut self, t: i16) {
        self.inner.store_acq(t as i32)
    }

    fn store_rel(&mut self, t: i16) {
        self.inner.store_rel(t as i32)
    }

    fn store_seqcst(&mut self, t: i16) {
        self.inner.store_seqcst(t as i32)
    }

    fn fetch(&self) -> (r: i16) {
        self.inner.fetch() as i16
    }

    fn fetch_seqcst(&self) -> (r: i16) {
        self.inner.fetch_seqcst() as i16
    }

    fn swap(&mut self, t: i16) -> (r: i16) {
        self.inner.swap(t as i32) as i16
    }

    fn swap_seqcst(&mut self, t: i16) -> (r: i16) {
        self.inner.swap_seqcst(t as i32) as i16
    }

    fn fetch_add(&mut self, t: i16) -> (r: i16) {
        self.inner.fetch_add(t as i32) as i16
    }

    fn fetch_sub(&mut self, t: i16) -> (r: i16) {
        self.inner.fetch_sub(t as i32) as i16
    }

    fn fetch_and(&mut self, t: i16) -> (r: i16) {
        self.inner.fetch_and(t as i32) as i16
    }

    fn fetch_or(&mut self, t: i16) -> (r: i16) {
        self.inner.fetch_or(t as i32) as i16
    }

    fn fetch_xor(&mut self, t: i16) -> (r: i16) {
        self.inner.fetch_xor(t as i32) as i16
    }

    fn fetch_max(&mut self, t: i16) -> (r: i16) {
        self.inner.fetch_max(t as i32) as i16
    }

    fn fetch_min(&mut self, t: i16) -> (r: i16) {
        self.inner.fetch_min(t as i32) as i16
    }

    fn compare_and_swap(&mut self, compare_to: i16, t: i16) -> (r: i16) {
        self.inner.compare_and_swap(compare_to as i32, t as i32) as i16
    }

    proof fn lemma_fetch_after_store(t: i16) {
        assert(((t as i32) as i16) == t) by (bit_vector);
    }

    proof fn lemma_compare_and_swap(w: int, c: i16) {
        let v = w as i16;
        assert(((v as i32) as i16) == v) by (bit_vector);
    }
}

/// The 32-bit word that a boolean is stored as: 1 for true, 0 for false.
pub open spec fn bool_word(b: bool) -> u32 {
    if b {
        1
    } else {
        0
    }
}

fn word_of(b: bool) -> (r: u32)
    ensures
        r == bool_word(b),
{
    if b {
        1
    } else {
        0
    }
}

/// A boolean atomic cell, kept in a 32-bit word of its own: false is 0, true
/// is 1, and a word reads as true when it is not 0. The read-modify-write
/// operations act on the word with integer semantics (`fetch_max(true)` keeps
/// the larger of the word and 1).
pub struct AtomicBool {
    inner: AtomicU32,
}

impl AtomicBool {
    pub fn new(t: bool) -> (r: AtomicBool)
        ensures
            r.word() == Self::write_word(t),
    {
        AtomicBool { inner: AtomicU32::new(word_of(t)) }
    }

    pub fn into_inner(self) -> (r: bool)
        ensures
            r == Self::read_word(self.word()),
    {
        self.inner.into_inner() != 0
    }
}

impl Atomic for AtomicBool {
    type T = bool;

    closed spec fn word(&self) -> int {
        self.inner.word()
    }

    open spec fn read_word(w: int) -> bool {
        (w as u32) != 0
    }

    open spec fn write_word(t: bool) -> int {
        bool_word(t) as int
    }

    open spec fn rmw_word(op: RmwOp, w: int, t: bool) -> int {
        rmw_u32(op, w as u32, bool_word(t)) as int
    }

    open spec fn canonical(w: int) -> bool {
        w == 0 || w == 1
    }

    fn store(&mut self, t: bool) {
        self.inner.store(word_of(t))
    }

    fn store_acq(&mut self, t: bool) {
        self.inner.store_acq(word_of(t))
    }

    fn store_rel(&mut self, t: bool) {
        self.inner.store_rel(word_of(t))
    }

    fn store_seqcst(&mut self, t: bool) {
        self.inner.store_seqcst(word_of(t))
    }

    fn fetch(&self) -> (r: bool) {
        self.inner.fetch() != 0
    }

    fn fetch_seqcst(&self) -> (r: bool) {
        self.inner.fetch_seqcst() != 0
    }

    fn swap(&mut self, t: bool) -> (r: bool) {
        self.inner.swap(word_of(t)) != 0
    }

    fn swap_seqcst(&mut self, t: bool) -> (r: bool) {
        self.inner.swap_seqcst(word_of(t)) != 0
    }

    fn fetch_add(&mut self, t: bool) -> (r: bool) {
        self.inner.fetch_add(word_of(t)) != 0
    }

    fn fetch_sub(&mut self, t: bool) -> (r: bool) {
        self.inner.fetch_sub(word_of(t)) != 0
    }

    fn fetch_and(&mut self, t: bool) -> (r: bool) {
        self.inner.fetch_and(word_of(t)) != 0
    }

    fn fetch_or(&mut self, t: bool) -> (r: bool) {
        self.inner.fetch_or(word_of(t)) != 0
    }

    fn fetch_xor(&mut self, t: bool) -> (r: bool) {
        self.inner.fetch_xor(word_of(t)) != 0
    }

    fn fetch_max(&mut self, t: bool) -> (r: bool) {
        self.inner.fetch_max(word_of(t)) != 0
    }

    fn fetch_min(&mut self, t: bool) -> (r: bool) {
        self.inner.fetch_min(word_of(t)) != 0
    }

    fn compare_and_swap(&mut self, compare_to: bool, t: bool) -> (r: bool) {
        self.inner.compare_and_swap(word_of(compare_to), word_of(t)) != 0
    }

    proof fn lemma_fetch_after_store(t: bool) {
    }

    proof fn lemma_compare_and_swap(w: int, c: bool) {
    }
}

} // verus!
