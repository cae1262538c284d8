use vstd::prelude::*;
use crate::atomic::{RmwOp, rmw_u32};

verus! {

/// The prior values that `n` consecutive `fetch_add(1)` steps hand out on a
/// 32-bit cell whose word starts at `w`.
pub open spec fn add_one_priors(w: u32, n: nat) -> Seq<u32>
    decreases n,
{
    if n == 0 {
        Seq::empty()
    } else {
        seq![w] + add_one_priors(rmw_u32(RmwOp::Add, w, 1), (n - 1) as nat)
    }
}

/// The word of a 32-bit cell after `n` consecutive `fetch_add(1)` steps from `w`.
pub open spec fn add_one_final(w: u32, n: nat) -> u32
    decreases n,
{
    if n == 0 {
        w
    } else {
        add_one_final(rmw_u32(RmwOp::Add, w, 1), (n - 1) as nat)
    }
}

proof fn lemma_add_one_from(w: u32, n: nat)
    requires
        w + n <= u32::MAX,
    ensures
        add_one_final(w, n) == w + n,
        add_one_priors(w, n).len() == n,
        forall|i: int| 0 <= i < n ==> add_one_priors(w, n)[i] == w + i,
    decreases n,
{
    if n > 0 {
        let next = rmw_u32(RmwOp::Add, w, 1);
        assert(next == w + 1);
        lemma_add_one_from(next, (n - 1) as nat);
        let tail = add_one_priors(next, (n - 1) as nat);
        assert(add_one_priors(w, n) == seq![w] + tail);
        assert forall|i: int| 0 <= i < n implies add_one_priors(w, n)[i] == w + i by {
            if i > 0 {
                assert(add_one_priors(w, n)[i] == tail[i - 1]);
            }
        }
    }
}

/// No update is lost: `n` steps of `fetch_add(1)` on a cell that starts at 0,
/// each one indivisible and so in some order one after another, leave the
/// cell at `n` and hand out each of `0..n` exactly once, in that order.
pub proof fn lemma_fetch_add_counts(n: nat)
    requires
        n <= u32::MAX,
    ensures
        add_one_final(0, n) == n,
        add_one_priors(0, n).len() == n,
        forall|i: int| 0 <= i < n ==> add_one_priors(0, n)[i] == i,
        add_one_priors(0, n).no_duplicates(),
{
    lemma_add_one_from(0, n);
    let p = add_one_priors(0, n);
    assert forall|i: int, j: int| 0 <= i < p.len() && 0 <= j < p.len() && i != j implies p[i]
        != p[j] by {}
}

/// What `fetch_and_or(!mask, value)` leaves in a word: the bits under `mask`
/// replaced by `value`, the others kept.
pub open spec fn field_write(w: u32, mask: u32, value: u32) -> u32 {
    (w & !mask) | value
}

/// A run of field writes on one word, each one an indivisible
/// `fetch_and_or`: `(true, v)` writes `v` into the bits of `mask_a`,
/// `(false, v)` into those of `mask_b`.
pub open spec fn field_writes(w: u32, mask_a: u32, mask_b: u32, writes: Seq<(bool, u32)>) -> u32
    decreases writes.len(),
{
    if writes.len() == 0 {
        w
    } else {
        let prev = field_writes(w, mask_a, mask_b, writes.drop_last());
        let (to_a, v) = writes.last();
        field_write(prev, if to_a { mask_a } else { mask_b }, v)
    }
}

/// The value of the last write into range `a` (when `to_a`) or range `b`
/// (when not) in `writes`, or `init` when there is none.
pub open spec fn last_field_value(init: u32, to_a: bool, writes: Seq<(bool, u32)>) -> u32
    decreases writes.len(),
{
    if writes.len() == 0 {
        init
    } else if writes.last().0 == to_a {
        writes.last().1
    } else {
        last_field_value(init, to_a, writes.drop_last())
    }
}

/// Every write puts its bits inside its own range.
pub open spec fn writes_fit(mask_a: u32, mask_b: u32, writes: Seq<(bool, u32)>) -> bool {
    forall|i: int|
        0 <= i < writes.len() ==> (writes[i].1 & !(if writes[i].0 {
            mask_a
        } else {
            mask_b
        })) == 0
}

proof fn lemma_field_write_bits(w: u32, mask: u32, value: u32, other: u32)
    requires
        mask & other == 0,
        value & !mask == 0,
    ensures
        field_write(w, mask, value) & mask == value,
        field_write(w, mask, value) & other == w & other,
{
    assert(((w & !mask) | value) & mask == value) by (bit_vector)
        requires
            value & !mask == 0,
    ;
    assert(((w & !mask) | value) & other == w & other) by (bit_vector)
        requires
            mask & other == 0,
            value & !mask == 0,
    ;
}

/// Two contexts that write disjoint bit ranges of one register with
/// `fetch_and_or`, interleaved in any order, leave each range holding that
/// range's own last write (or its starting bits, where it had none).
pub proof fn lemma_disjoint_field_writes(
    w: u32,
    mask_a: u32,
    mask_b: u32,
    writes: Seq<(bool, u32)>,
)
    requires
        mask_a & mask_b == 0,
        writes_fit(mask_a, mask_b, writes),
    ensures
        field_writes(w, mask_a, mask_b, writes) & mask_a == last_field_value(
            w & mask_a,
            true,
            writes,
        ),
        field_writes(w, mask_a, mask_b, writes) & mask_b == last_field_value(
            w & mask_b,
            false,
            writes,
        ),
    decreases writes.len(),
{
    if writes.len() > 0 {
        let rest = writes.drop_last();
        assert forall|i: int| 0 <= i < rest.len() implies (rest[i].1 & !(if rest[i].0 {
            mask_a
        } else {
            mask_b
        })) == 0 by {
            assert(rest[i] == writes[i]);
        }
        lemma_disjoint_field_writes(w, mask_a, mask_b, rest);
        let prev = field_writes(w, mask_a, mask_b, rest);
        let (to_a, v) = writes.last();
        assert(writes.last() == writes[writes.len() - 1]);
        if to_a {
            lemma_field_write_bits(prev, mask_a, v, mask_b);
        } else {
            assert(mask_b & mask_a == 0) by (bit_vector)
                requires
                    mask_a & mask_b == 0,
            ;
            lemma_field_write_bits(prev, mask_b, v, mask_a);
        }
    }
}

/// One step of a context `c` on a counter kept under a `Spinlock`: take the
/// lock, read the counter into the context, write back what it read plus
/// one, give the lock up.
pub enum LockStep {
    Acquire(nat),
    Load(nat),
    Store(nat),
    Release(nat),
}

/// A counter under a lock: which context holds the lock, the counter, and
/// what each context has read from it since it took the lock.
pub struct LockedCounter {
    pub holder: Option<nat>,
    pub counter: int,
    pub loaded: Map<nat, int>,
}

/// Whether `step` may happen in `s`: `Spinlock::lock` needs the lock free,
/// and the payload is reached (`data`, `data_mut`) and the lock released only
/// by its holder. A write needs a read in the same hold.
pub open spec fn step_allowed(s: LockedCounter, step: LockStep) -> bool {
    match step {
        LockStep::Acquire(_) => s.holder.is_none(),
        LockStep::Load(c) => s.holder == Some(c),
        LockStep::Store(c) => s.holder == Some(c) && s.loaded.contains_key(c),
        LockStep::Release(c) => s.holder == Some(c),
    }
}

/// The state after `step`.
pub open spec fn step_next(s: LockedCounter, step: LockStep) -> LockedCounter {
    match step {
        LockStep::Acquire(c) => LockedCounter {
            holder: Some(c),
            counter: s.counter,
            loaded: s.loaded.remove(c),
        },
        LockStep::Load(c) => LockedCounter {
            holder: s.holder,
            counter: s.counter,
            loaded: s.loaded.insert(c, s.counter),
        },
        LockStep::Store(c) => LockedCounter {
            holder: s.holder,
            counter: s.loaded[c] + 1,
            loaded: s.loaded.remove(c),
        },
        LockStep::Release(c) => LockedCounter {
            holder: None,
            counter: s.counter,
            loaded: s.loaded.remove(c),
        },
    }
}

/// Whether every step of `steps` may happen in turn from `s`.
pub open spec fn run_allowed(s: LockedCounter, steps: Seq<LockStep>) -> bool
    decreases steps.len(),
{
    steps.len() == 0 || (step_allowed(s, steps[0]) && run_allowed(
        step_next(s, steps[0]),
        steps.drop_first(),
    ))
}

/// The state after `steps` from `s`.
pub open spec fn run_final(s: LockedCounter, steps: Seq<LockStep>) -> LockedCounter
    decreases steps.len(),
{
    if steps.len() == 0 {
        s
    } else {
        run_final(step_next(s, steps[0]), steps.drop_first())
    }
}

/// The number of writes in `steps`.
pub open spec fn store_count(steps: Seq<LockStep>) -> nat
    decreases steps.len(),
{
    if steps.len() == 0 {
        0
    } else {
        (if steps[0] is Store {
            1nat
        } else {
            0nat
        }) + store_count(steps.drop_first())
    }
}

/// Only the holder has read the counter, and what it read is still current.
pub open spec fn loads_current(s: LockedCounter) -> bool {
    forall|c: nat| #[trigger]
        s.loaded.contains_key(c) ==> s.holder == Some(c) && s.loaded[c] == s.counter
}

proof fn lemma_run_counts_stores(s: LockedCounter, steps: Seq<LockStep>)
    requires
        loads_current(s),
        run_allowed(s, steps),
    ensures
        run_final(s, steps).counter == s.counter + store_count(steps),
    decreases steps.len(),
{
    if steps.len() > 0 {
        let n = step_next(s, steps[0]);
        assert(loads_current(n));
        lemma_run_counts_stores(n, steps.drop_first());
    }
}

/// The lock excludes lost updates: from a free lock with nothing read, any
/// interleaving of steps of any number of contexts that keeps to the lock's
/// rules leaves the counter raised by exactly the number of writes. So `m`
/// contexts that each complete `k` increments raise it by `m * k`.
pub proof fn lemma_locked_increments(counter: int, steps: Seq<LockStep>)
    requires
        run_allowed(
            LockedCounter { holder: None, counter, loaded: Map::empty() },
            steps,
        ),
    ensures
        run_final(LockedCounter { holder: None, counter, loaded: Map::empty() }, steps).counter
            == counter + store_count(steps),
{
    lemma_run_counts_stores(LockedCounter { holder: None, counter, loaded: Map::empty() }, steps);
}

} // verus!
