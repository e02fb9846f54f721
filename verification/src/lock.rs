//! The lock/guard pair.
//!
//! A `Spinlock<T>` owns an exclusivity flag and, while unlocked, the protected
//! value. Acquiring moves the value into a `Guard<T>`, the sole witness of
//! exclusive access; releasing moves it back. At most one guard can be
//! outstanding per lock: while one is, the lock stores no value and every
//! further acquisition poll fails.

use vstd::prelude::*;

verus! {

/// A token witnessing exclusive access to the protected value of the
/// `Spinlock` it was acquired from. While the guard is alive the value can be
/// read and written only through it; handing the guard back to the lock
/// releases the flag and publishes the value.
pub struct Guard<T> {
    value: T,
}

/// The two-state mutual-exclusion primitive. `flag == false` means unlocked:
/// the protected value sits in the lock, ready to be acquired. `flag == true`
/// means locked: the value has moved into the outstanding `Guard`.
pub struct Spinlock<T> {
    flag: bool,
    value: Option<T>,
}

impl<T> View for Guard<T> {
    type V = T;

    /// The protected value as the guard's holder sees it.
    closed spec fn view(&self) -> T {
        self.value
    }
}

impl<T> Guard<T> {
    /// Read access to the protected value, valid while the guard is alive.
    pub fn get(&self) -> (r: &T)
        ensures
            *r == self@,
    {
        &self.value
    }

    /// Write access to the protected value, valid while the guard is alive.
    pub fn get_mut(&mut self) -> (r: &mut T)
        ensures
            *r == old(self)@,
            final(self)@ == *final(r),
    {
        &mut self.value
    }
}

impl<T> Spinlock<T> {
    /// A lock is well formed when the flag agrees with the storage: the value
    /// is in the lock exactly while the lock is unlocked.
    pub closed spec fn wf(&self) -> bool {
        self.flag <==> self.value is None
    }

    /// Whether the exclusivity flag is held, i.e. whether a guard is
    /// outstanding.
    pub closed spec fn is_locked(&self) -> bool {
        self.flag
    }

    /// The protected value, defined while the lock is unlocked.
    pub closed spec fn stored(&self) -> T
        recommends
            !self.is_locked(),
    {
        self.value.unwrap()
    }

    /// Produce an unlocked lock protecting `data`. No failure mode.
    pub fn new(data: T) -> (s: Self)
        ensures
            s.wf(),
            !s.is_locked(),
            s.stored() == data,
    {
        Spinlock { flag: false, value: Some(data) }
    }

    /// Acquire exclusive access: win the Unlocked -> Locked transition and
    /// receive the guard holding the protected value. An exclusive borrow of
    /// a locked lock can never see its guard returned, so acquiring from that
    /// state would poll forever (the stuck-lock hazard of the design); that
    /// input is excluded, and from the unlocked state the first poll wins.
    pub fn lock(&mut self) -> (g: Guard<T>)
        requires
            old(self).wf(),
            !old(self).is_locked(),
        ensures
            final(self).wf(),
            final(self).is_locked(),
            g@ == old(self).stored(),
    {
        let polled = self.try_lock();
        match polled {
            Some(g) => g,
            None => {
                // Unreachable: a poll from the unlocked state succeeds.
                vstd::pervasive::unreached()
            },
        }
    }

    /// One acquisition poll, without blocking: attempt the Unlocked -> Locked
    /// transition once. Succeeds, yielding the guard, exactly when the lock
    /// was unlocked; on a locked lock it returns `None` and changes nothing.
    pub fn try_lock(&mut self) -> (g: Option<Guard<T>>)
        requires
            old(self).wf(),
        ensures
            final(self).wf(),
            old(self).is_locked() ==> g is None && *final(self) == *old(self),
            !old(self).is_locked() ==> {
                &&& g matches Some(guard) && guard@ == old(self).stored()
                &&& final(self).is_locked()
            },
    {
        if self.flag {
            None
        } else {
            self.flag = true;
            let taken = self.value.take();
            match taken {
                Some(v) => Some(Guard { value: v }),
                None => vstd::pervasive::unreached(),
            }
        }
    }

    /// Release: return the guard, storing its value back into the lock and
    /// clearing the flag, exactly once. The next acquire attempt sees the
    /// value as the releasing holder left it.
    pub fn unlock(&mut self, g: Guard<T>)
        requires
            old(self).wf(),
            old(self).is_locked(),
        ensures
            final(self).wf(),
            !final(self).is_locked(),
            final(self).stored() == g@,
    {
        self.value = Some(g.value);
        self.flag = false;
    }
}

/// Release visibility: once a guard is handed back, the very next acquisition
/// poll succeeds — one poll bounds the wait after a release — and the new
/// guard sees the value exactly as the releasing holder left it.
pub fn release_then_reacquire<T>(lk: &mut Spinlock<T>, g: Guard<T>) -> (g2: Guard<T>)
    requires
        old(lk).wf(),
        old(lk).is_locked(),
    ensures
        final(lk).wf(),
        final(lk).is_locked(),
        g2@ == g@,
{
    lk.unlock(g);
    let polled = lk.try_lock();
    match polled {
        Some(next) => next,
        None => {
            // Unreachable: the release left the lock open.
            vstd::pervasive::unreached()
        },
    }
}

} // verus!
