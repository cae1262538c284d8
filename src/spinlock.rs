use vstd::prelude::*;
use crate::atomic::Atomic;
use crate::narrow::AtomicBool;

verus! {

/// A busy-wait lock that owns its payload. The lock is held exactly when its
/// flag reads as true; the flag becomes true only through
/// `compare_and_swap(false, true)` and false only through a release-ordered
/// store when the guard is released.
pub struct Spinlock<T> {
    locked: AtomicBool,
    data: T,
}

/// The token of lock ownership that `Spinlock::lock` hands out. It cannot be
/// copied or made elsewhere, and releasing the lock consumes it.
pub struct SpinlockGuard {
    held: (),
}

impl<T> Spinlock<T> {
    /// The flag holds a word that some boolean was stored as.
    pub closed spec fn wf(&self) -> bool {
        AtomicBool::canonical(self.locked.word())
    }

    /// Whether the lock is held.
    pub closed spec fn held(&self) -> bool {
        AtomicBool::read_word(self.locked.word())
    }

    /// The payload.
    pub closed spec fn payload(&self) -> T {
        self.data
    }

    pub fn new(data: T) -> (r: Spinlock<T>)
        ensures
            r.wf(),
            !r.held(),
            r.payload() == data,
    {
        Spinlock { locked: AtomicBool::new(false), data }
    }

    /// Give up the lock and hand back the payload.
    pub fn into_inner(self) -> (r: T)
        ensures
            r == self.payload(),
    {
        let Spinlock { data, .. } = self;
        data
    }

    /// Take the lock: spin on `compare_and_swap(false, true)` until it
    /// succeeds, and return the guard.
    pub fn lock(&mut self) -> (g: SpinlockGuard)
        requires
            old(self).wf(),
            !old(self).held(),
        ensures
            final(self).wf(),
            final(self).held(),
            final(self).payload() == old(self).payload(),
    {
        let mut previous_value = true;
        while previous_value
            invariant
                self.wf(),
                self.payload() == old(self).payload(),
                previous_value ==> !self.held(),
                !previous_value ==> self.held(),
            decreases previous_value as int,
        {
            proof {
                AtomicBool::lemma_compare_and_swap(self.locked.word(), false);
                AtomicBool::lemma_fetch_after_store(true);
            }
            previous_value = self.locked.compare_and_swap(false, true);
        }
        SpinlockGuard { held: () }
    }

    /// Release the lock that `g` stands for, with a release-ordered store of
    /// false. Only a held lock can be released.
    pub fn release(&mut self, g: SpinlockGuard)
        requires
            old(self).wf(),
            old(self).held(),
        ensures
            final(self).wf(),
            !final(self).held(),
            final(self).payload() == old(self).payload(),
    {
        let SpinlockGuard { held: _ } = g;
        proof {
            AtomicBool::lemma_fetch_after_store(false);
        }
        self.locked.store_rel(false);
    }

    /// Read the payload through the guard.
    pub fn data(&self, g: &SpinlockGuard) -> (r: &T)
        requires
            self.held(),
        ensures
            *r == self.payload(),
    {
        &self.data
    }

    /// Reach the payload through the guard to change it.
    pub fn data_mut(&mut self, g: &SpinlockGuard) -> (r: &mut T)
        requires
            old(self).held(),
        ensures
            *r == old(self).payload(),
            final(self).payload() == *final(r),
            final(self).wf() == old(self).wf(),
            final(self).held() == old(self).held(),
    {
        &mut self.data
    }

    /// Reach the payload whatever the state of the lock, for last-resort
    /// paths such as reporting a fault while the lock may be held.
    pub fn breaklock(&mut self) -> (r: &mut T)
        ensures
            *r == old(self).payload(),
            final(self).payload() == *final(r),
            final(self).wf() == old(self).wf(),
            final(self).held() == old(self).held(),
    {
        &mut self.data
    }

    /// Whether the lock is held. Advisory only: where the lock is shared the
    /// answer may be stale before it is read.
    pub fn is_locked(&self) -> (r: bool)
        ensures
            r == self.held(),
    {
        self.locked.fetch()
    }
}

} // verus!
