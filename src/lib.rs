//! A non-blocking lock: a flag and the value it guards.
//!
//! Acquiring either hands back a [`Guard`] at once or reports contention; it
//! never waits. What to do on contention (spin, yield, sleep) is up to the
//! caller. The guard releases the lock when it is dropped.
//!
//! Acquiring borrows the lock exclusively, so the test and the set of the
//! flag form one step that no other caller can interleave with, and an
//! attempt on a free lock always succeeds. The flag stays set only while a
//! guard holds the lock, or after a guard was leaked (`std::mem::forget`),
//! until [`AtomicLock::unlock`] clears it.
use vstd::prelude::*;
use vstd::std_specs::cmp::{PartialEqSpec, PartialOrdSpec};

verus! {

/// A lock that guards a value of type `T` behind a single flag.
pub struct AtomicLock<T> {
    lock: bool,
    data: T,
}

impl<T> AtomicLock<T> {
    /// Whether a guard currently holds the lock.
    pub closed spec fn is_locked(&self) -> bool {
        self.lock
    }

    /// The protected value.
    pub closed spec fn value(&self) -> T {
        self.data
    }

    /// The free lock around `data`.
    pub closed spec fn unlocked(data: T) -> Self {
        AtomicLock { lock: false, data }
    }

    /// Creates an unlocked lock around `data`.
    pub fn new(data: T) -> (r: Self)
        ensures
            r == Self::unlocked(data),
            !r.is_locked(),
            r.value() == data,
    {
        AtomicLock { lock: false, data }
    }

    /// Tries to acquire the lock, without waiting.
    ///
    /// Returns a guard when the lock was free, and `None` when it is held
    /// (by a guard that was leaked, or until `unlock` is called). Exclusive
    /// access to the lock is asked for, so the flag is tested and set in one
    /// step that no other caller can interleave with.
    pub fn lock(&mut self) -> (r: Option<Guard<'_, T>>)
        ensures
            r is Some <==> !old(self).is_locked(),
            r is None ==> *final(self) == *old(self),
            r matches Some(g) ==> g.state() == old(self).acquired() && *final(self) == Self::parts(
                *final(g.flag_cell()),
                *final(g.data_cell()),
            ),
    {
        if self.lock {
            None
        } else {
            self.lock = true;
            Some(Guard { release: Release { flag: &mut self.lock }, data: &mut self.data })
        }
    }

    /// The lock with flag `flag` around `data`.
    pub closed spec fn parts(flag: bool, data: T) -> Self {
        AtomicLock { lock: flag, data }
    }

    /// The lock as a successful acquire leaves it: held, with the same value.
    pub closed spec fn acquired(&self) -> Self {
        AtomicLock { lock: true, data: self.data }
    }

    /// The lock as a release leaves it: free, with the same value.
    pub closed spec fn released(&self) -> Self {
        AtomicLock { lock: false, data: self.data }
    }

    /// The lock with its value replaced by `v` and its flag kept.
    pub closed spec fn with_value(&self, v: T) -> Self {
        AtomicLock { lock: self.lock, data: v }
    }

    /// Releases the lock by hand.
    ///
    /// The lock must be held: releasing a free lock is a broken invariant of
    /// the caller (a double release), so it is excluded by the precondition.
    pub fn unlock(&mut self)
        requires
            old(self).is_locked(),
        ensures
            *final(self) == old(self).released(),
    {
        self.lock = false;
    }

    /// Accesses the protected value without looking at the flag.
    ///
    /// The caller must make sure that nobody else uses the value meanwhile.
    pub fn data(&mut self) -> (r: &mut T)
        ensures
            *r == old(self).value(),
            *final(self) == old(self).with_value(*final(r)),
    {
        &mut self.data
    }

    /// Consumes the lock and returns the protected value.
    pub fn into_inner(self) -> (r: T)
        ensures
            r == self.value(),
    {
        self.data
    }
}

/// The lock after `n` acquire attempts in a row with no release between them,
/// and how many of those attempts succeeded.
pub open spec fn attempts<T>(l: AtomicLock<T>, n: nat) -> (AtomicLock<T>, nat)
    decreases n,
{
    if n == 0 {
        (l, 0)
    } else {
        let (s, k) = attempts(l, (n - 1) as nat);
        if s.is_locked() {
            (s, k)
        } else {
            (s.acquired(), k + 1)
        }
    }
}

/// Mutual exclusion: of any run of acquire attempts with no release between
/// them, at most one succeeds, and none does when the lock was held already.
pub proof fn lemma_mutual_exclusion<T>(l: AtomicLock<T>, n: nat)
    ensures
        attempts(l, n).1 <= 1,
        l.is_locked() ==> attempts(l, n).1 == 0,
        n > 0 ==> attempts(l, n).0.is_locked(),
        attempts(l, n).0.value() == l.value(),
    decreases n,
{
    if n > 0 {
        lemma_mutual_exclusion(l, (n - 1) as nat);
    }
}

/// While a guard holds the lock, the lock reads as held, so every further
/// acquire attempt reports contention.
pub proof fn lemma_no_acquire_while_held<T>(l: AtomicLock<T>, v: T)
    ensures
        l.acquired().is_locked(),
        l.acquired().with_value(v).is_locked(),
{
}

/// A release leaves the lock free, so the next acquire succeeds and finds
/// the lock held again with the value unchanged.
pub proof fn lemma_release_restores_availability<T>(l: AtomicLock<T>)
    requires
        l.is_locked(),
    ensures
        !l.released().is_locked(),
        l.released().acquired() == l,
{
}

/// A value written under one guard is the value that the next successful
/// acquire finds.
pub proof fn lemma_visibility<T>(l: AtomicLock<T>, v: T)
    requires
        l.is_locked(),
    ensures
        l.with_value(v).released().acquired().value() == v,
        l.with_value(v).released().value() == v,
{
}

/// Clears the flag of a lock when dropped.
struct Release<'a> {
    flag: &'a mut bool,
}

impl<'a> Release<'a> {
    /// Whether the flag is set.
    pub closed spec fn is_set(&self) -> bool {
        *self.flag
    }
}

impl<'a> Drop for Release<'a> {
    /// Clears the flag.
    fn drop(&mut self)
        ensures
            !final(self).is_set(),
        opens_invariants none
        no_unwind
    {
        *self.flag = false;
    }
}

/// Exclusive access to the value of an [`AtomicLock`], held until it is dropped.
///
/// Dropping the guard releases the lock. The value is borrowed apart from
/// the flag, so what was written through the guard is what the lock holds
/// once the guard is gone.
#[must_use]
pub struct Guard<'a, T> {
    release: Release<'a>,
    data: &'a mut T,
}

impl<'a, T> Guard<'a, T> {
    /// The state of the lock that this guard holds.
    pub closed spec fn state(&self) -> AtomicLock<T> {
        AtomicLock::parts(*self.release.flag, *self.data)
    }

    /// The borrow of the lock's flag that this guard holds.
    pub closed spec fn flag_cell(&self) -> &'a mut bool {
        self.release.flag
    }

    /// The borrow of the lock's value that this guard holds.
    pub closed spec fn data_cell(&self) -> &'a mut T {
        self.data
    }

    /// The value behind the guard.
    pub open spec fn value(&self) -> T {
        self.state().value()
    }

    /// Reads the value behind the guard.
    pub fn get(&self) -> (r: &T)
        ensures
            *r == self.value(),
    {
        &*self.data
    }

    /// Gives mutable access to the value behind the guard.
    pub fn get_mut(&mut self) -> (r: &mut T)
        ensures
            *r == old(self).value(),
            final(self).state() == old(self).state().with_value(*final(r)),
            final(self).flag_cell() == old(self).flag_cell(),
            *final(final(self).data_cell()) == *final(old(self).data_cell()),
    {
        &mut *self.data
    }
}

impl<'a, T> core::convert::AsRef<T> for Guard<'a, T> {
    fn as_ref(&self) -> (r: &T)
        ensures
            *r == self.value(),
    {
        self.get()
    }
}

impl<'a, T> core::convert::AsMut<T> for Guard<'a, T> {
    fn as_mut(&mut self) -> (r: &mut T)
        ensures
            *r == old(self).value(),
            final(self).state() == old(self).state().with_value(*final(r)),
            final(self).flag_cell() == old(self).flag_cell(),
            *final(final(self).data_cell()) == *final(old(self).data_cell()),
    {
        self.get_mut()
    }
}

impl<'a, T> core::ops::Deref for Guard<'a, T> {
    type Target = T;

    fn deref(&self) -> (r: &T)
        ensures
            *r == self.value(),
    {
        self.get()
    }
}

impl<'a, T> core::ops::DerefMut for Guard<'a, T> {
    fn deref_mut(&mut self) -> (r: &mut T)
        ensures
            *r == old(self).value(),
            final(self).state() == old(self).state().with_value(*final(r)),
            final(self).flag_cell() == old(self).flag_cell(),
            *final(final(self).data_cell()) == *final(old(self).data_cell()),
    {
        self.get_mut()
    }
}

impl<T: Default> Default for AtomicLock<T> {
    /// An unlocked lock around `T`'s default value.
    fn default() -> (r: Self)
        ensures
            !r.is_locked(),
            call_ensures(T::default, (), r.value()),
    {
        AtomicLock::new(T::default())
    }
}

impl<T> From<T> for AtomicLock<T> {
    /// An unlocked lock around `data`.
    fn from(data: T) -> (r: Self)
        ensures
            r == Self::unlocked(data),
    {
        AtomicLock::new(data)
    }
}

impl<T> vstd::std_specs::convert::FromSpecImpl<T> for AtomicLock<T> {
    open spec fn obeys_from_spec() -> bool {
        true
    }

    open spec fn from_spec(data: T) -> Self {
        Self::unlocked(data)
    }
}

impl<'a, T: PartialEq> PartialEq for Guard<'a, T> {
    /// Guards compare as the values behind them compare.
    fn eq(&self, other: &Self) -> (r: bool) {
        self.get().eq(other.get())
    }
}

impl<'a, T: PartialEq> vstd::std_specs::cmp::PartialEqSpecImpl for Guard<'a, T> {
    open spec fn obeys_eq_spec() -> bool {
        T::obeys_eq_spec()
    }

    open spec fn eq_spec(&self, other: &Self) -> bool {
        self.value().eq_spec(&other.value())
    }
}

impl<'a, T: PartialOrd> PartialOrd for Guard<'a, T> {
    /// Guards are ordered as the values behind them are ordered.
    fn partial_cmp(&self, other: &Self) -> (r: Option<core::cmp::Ordering>) {
        self.get().partial_cmp(other.get())
    }
}

impl<'a, T: PartialOrd> vstd::std_specs::cmp::PartialOrdSpecImpl for Guard<'a, T> {
    open spec fn obeys_partial_cmp_spec() -> bool {
        T::obeys_partial_cmp_spec()
    }

    open spec fn partial_cmp_spec(&self, other: &Self) -> Option<core::cmp::Ordering> {
        self.value().partial_cmp_spec(&other.value())
    }
}

} // verus!
