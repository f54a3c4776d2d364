use chat::locks::UserLocks;

#[test]
fn a_lock_is_granted_once_until_it_is_given_back() {
    let mut locks = UserLocks::new();
    assert!(!locks.is_locked(1));
    assert!(locks.try_lock(1));
    assert!(locks.is_locked(1));
    assert!(!locks.try_lock(1));
    assert!(!locks.try_lock(1));
    assert!(locks.is_locked(1));
    locks.unlock(1);
    assert!(!locks.is_locked(1));
    assert!(locks.try_lock(1));
}

#[test]
fn users_do_not_wait_for_each_other() {
    let mut locks = UserLocks::new();
    assert!(locks.try_lock(1));
    assert!(locks.try_lock(2));
    assert!(locks.try_lock(-7));
    locks.unlock(2);
    assert!(locks.is_locked(1));
    assert!(!locks.is_locked(2));
    assert!(locks.is_locked(-7));
    assert!(locks.try_lock(2));
}

#[test]
fn giving_back_a_lock_that_is_not_held_changes_nothing() {
    let mut locks = UserLocks::new();
    locks.unlock(5);
    assert!(!locks.is_locked(5));
    assert!(locks.try_lock(5));
    locks.unlock(6);
    assert!(locks.is_locked(5));
}

#[test]
fn turns_of_one_user_take_their_turn() {
    // Two turns of user 1 arrive together; the second starts only when
    // the first is over, and so loads what the first saved.
    let mut locks = UserLocks::new();
    let mut stored: Vec<&str> = Vec::new();
    assert!(locks.try_lock(1));
    let first_loaded = stored.clone();
    assert!(!locks.try_lock(1));
    stored = first_loaded;
    stored.push("first");
    locks.unlock(1);
    assert!(locks.try_lock(1));
    let second_loaded = stored.clone();
    assert_eq!(second_loaded, vec!["first"]);
    stored = second_loaded;
    stored.push("second");
    locks.unlock(1);
    assert_eq!(stored, vec!["first", "second"]);
}
