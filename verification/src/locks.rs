//! The per-user locks of the turn coordinator.
//!
//! A turn holds its user's lock from before the history is loaded until
//! after it is saved. The table here says who holds a lock and grants a
//! lock only where nobody holds it: two turns of one user never overlap,
//! and a user never waits for another. Waiting, and calling the table from
//! one thread at a time, is the caller's part.

use std::collections::HashSet;
use vstd::prelude::*;

verus! {

broadcast use vstd::std_specs::hash::group_hash_axioms;

/// The users whose lock is held.
pub struct UserLocks {
    held: HashSet<i64>,
}

impl View for UserLocks {
    type V = Set<i64>;

    closed spec fn view(&self) -> Set<i64> {
        self.held@
    }
}

impl UserLocks {
    /// A table in which no lock is held.
    pub fn new() -> (r: Self)
        ensures
            r@ == Set::<i64>::empty(),
    {
        UserLocks { held: HashSet::new() }
    }

    /// Whether the lock of `user_id` is held.
    pub fn is_locked(&self, user_id: i64) -> (r: bool)
        ensures
            r == self@.contains(user_id),
    {
        self.held.contains(&user_id)
    }

    /// Takes the lock of `user_id` if nobody holds it, and tells whether
    /// it did. The locks of other users play no part.
    pub fn try_lock(&mut self, user_id: i64) -> (granted: bool)
        ensures
            granted == !old(self)@.contains(user_id),
            final(self)@ == old(self)@.insert(user_id),
    {
        self.held.insert(user_id)
    }

    /// Gives the lock of `user_id` back.
    pub fn unlock(&mut self, user_id: i64)
        ensures
            final(self)@ == old(self)@.remove(user_id),
    {
        self.held.remove(&user_id);
    }
}

/// What is asked of the table.
pub enum LockEvent {
    /// `try_lock` for this user.
    Lock(i64),
    /// `unlock` for this user.
    Unlock(i64),
}

/// The users whose lock is held after `events`, in order, on a table that
/// began empty.
pub open spec fn held_after(events: Seq<LockEvent>) -> Set<i64>
    decreases events.len(),
{
    if events.len() == 0 {
        Set::empty()
    } else {
        let before = held_after(events.drop_last());
        match events.last() {
            LockEvent::Lock(user) => before.insert(user),
            LockEvent::Unlock(user) => before.remove(user),
        }
    }
}

/// Whether the `i`-th of `events` asks for the lock of `user` and gets it.
pub open spec fn granted(events: Seq<LockEvent>, i: int, user: i64) -> bool {
    &&& 0 <= i < events.len()
    &&& events[i] == LockEvent::Lock(user)
    &&& !held_after(events.take(i)).contains(user)
}

/// A lock that was asked for stays held until it is given back.
pub proof fn lemma_still_held(events: Seq<LockEvent>, i: int, k: int, user: i64)
    requires
        0 <= i < k <= events.len(),
        events[i] == LockEvent::Lock(user),
        forall|m: int| i < m < k ==> events[m] != LockEvent::Unlock(user),
    ensures
        held_after(events.take(k)).contains(user),
    decreases k - i,
{
    assert(events.take(k).drop_last() == events.take(k - 1));
    if k > i + 1 {
        lemma_still_held(events, i, k - 1, user);
    }
}

/// Two turns of one user never overlap: between two grants of a user's
/// lock, the lock was given back.
pub proof fn lemma_exclusive(events: Seq<LockEvent>, i: int, j: int, user: i64)
    requires
        i < j,
        granted(events, i, user),
        granted(events, j, user),
    ensures
        exists|k: int| i < k < j && events[k] == LockEvent::Unlock(user),
{
    if forall|m: int| i < m < j ==> events[m] != LockEvent::Unlock(user) {
        lemma_still_held(events, i, j, user);
    }
}

/// What other users do with their locks never keeps a user from theirs:
/// whether a lock is held depends on the events of its user alone.
pub proof fn lemma_independent(events: Seq<LockEvent>, other: LockEvent, user: i64)
    requires
        other != LockEvent::Lock(user),
        other != LockEvent::Unlock(user),
    ensures
        held_after(events.push(other)).contains(user) == held_after(events).contains(user),
{
    assert(events.push(other).drop_last() == events);
}

} // verus!
