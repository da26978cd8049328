use cell_rwlock::message::{push_decimal, push_location, BorrowLocation};
use cell_rwlock::raw::{BorrowFailError, BorrowFlag, BorrowState, CellMutex, CellRwLock};

fn at(line: u32, column: u32) -> BorrowLocation {
    BorrowLocation { file: "src/lib.rs", line, column }
}

#[test]
fn basic_rwlock() {
    let mut lock = CellRwLock::new(true);
    let mut data = vec![7i32];
    {
        assert!(lock.try_lock_shared(at(24, 25)));
        assert_eq!(data, vec![7]);
        lock.unlock_shared();
    }
    {
        lock.lock_exclusive(at(28, 29));
        data.push(18);
        data.push(19);
        lock.unlock_exclusive();
    }
    {
        lock.lock_shared(at(33, 25));
        assert_eq!(data, vec![7, 18, 19]);
        {
            lock.lock_shared(at(36, 29));
            assert_eq!(data.first(), Some(&7));
            assert_eq!(data.last(), Some(&19));
            lock.unlock_shared();
        }
        lock.unlock_shared();
    }
    {
        lock.lock_exclusive(at(42, 29));
        data.push(42);
        lock.unlock_exclusive();
    }
    assert!(!lock.is_locked());
    assert_eq!(data, vec![7, 18, 19, 42]);
}

#[test]
fn flag_state_follows_sign() {
    assert_eq!(BorrowFlag { count: 0 }.state(), BorrowState::Unused);
    assert_eq!(BorrowFlag { count: 3 }.state(), BorrowState::SharedBorrow);
    assert_eq!(BorrowFlag { count: -1 }.state(), BorrowState::MutableBorrow);
    assert_eq!(BorrowFlag { count: isize::MAX }.state(), BorrowState::SharedBorrow);
    assert_eq!(BorrowFlag { count: isize::MIN }.state(), BorrowState::MutableBorrow);
}

#[test]
fn exclusive_twice_then_again_after_unlock() {
    let mut lock = CellRwLock::new(false);
    assert!(lock.try_lock_exclusive(at(1, 1)));
    assert!(!lock.try_lock_exclusive(at(2, 1)));
    lock.unlock_exclusive();
    assert!(lock.try_lock_exclusive(at(3, 1)));
}

#[test]
fn two_shared_holders_block_exclusive() {
    let mut lock = CellRwLock::new(false);
    lock.lock_shared(at(1, 1));
    lock.lock_shared(at(2, 1));
    assert!(!lock.try_lock_exclusive(at(3, 1)));
    lock.unlock_shared();
    assert!(!lock.try_lock_exclusive(at(4, 1)));
    lock.unlock_shared();
    assert!(lock.try_lock_exclusive(at(5, 1)));
}

#[test]
fn shared_after_exclusive_is_refused_with_diagnostic() {
    let mut lock = CellRwLock::new(true);
    lock.lock_exclusive(at(10, 5));
    let err = lock.try_borrow_shared(at(11, 5)).unwrap_err();
    assert!(!err.is_exclusive);
    assert_eq!(
        err.message(),
        "Unable to borrow: Exclusively borrowed at src/lib.rs:10:5"
    );
    assert!(lock.is_locked_exclusive());
    assert!(!lock.try_lock_shared(at(12, 5)));
    assert!(!lock.try_lock_shared_recursive(at(13, 5)));
}

#[test]
fn exclusive_against_shared_message_tracked() {
    let mut lock = CellRwLock::new(true);
    lock.lock_shared(at(20, 9));
    lock.lock_shared(at(21, 9));
    let err = lock.try_borrow_exclusively(at(22, 9)).unwrap_err();
    assert!(err.is_exclusive);
    assert_eq!(
        err.message(),
        "Unable to exclusively borrow: Already borrowed at src/lib.rs:20:9"
    );
}

#[test]
fn exclusive_against_shared_message_untracked() {
    let mut lock = CellRwLock::new(false);
    lock.lock_shared(at(20, 9));
    let err = lock.try_borrow_exclusively(at(22, 9)).unwrap_err();
    assert_eq!(err.message(), "Unable to exclusively borrow");
    lock.unlock_shared();
    lock.lock_exclusive(at(30, 1));
    let err = lock.try_borrow_shared(at(31, 1)).unwrap_err();
    assert_eq!(err.message(), "Unable to borrow");
}

#[test]
fn exclusive_against_exclusive_message() {
    let err = BorrowFailError {
        is_exclusive: true,
        existing_location: Some(BorrowLocation { file: "a.rs", line: 1234567890, column: 0 }),
    };
    assert_eq!(
        err.message(),
        "Unable to exclusively borrow: Already borrowed at a.rs:1234567890:0"
    );
}

#[test]
fn earliest_location_is_first_of_streak() {
    let mut lock = CellRwLock::new(true);
    assert!(lock.earliest_borrow_location().is_none());
    lock.lock_shared(at(5, 6));
    lock.lock_shared(at(7, 8));
    let loc = lock.earliest_borrow_location().unwrap();
    assert_eq!((loc.line, loc.column), (5, 6));
    lock.unlock_shared();
    assert_eq!(lock.earliest_borrow_location().unwrap().line, 5);
    lock.unlock_shared();
    assert!(lock.earliest_borrow_location().is_none());
    lock.lock_exclusive(at(9, 1));
    assert_eq!(lock.earliest_borrow_location().unwrap().line, 9);
    lock.unlock_exclusive();
    assert!(lock.earliest_borrow_location().is_none());
}

#[test]
fn untracked_lock_records_no_location() {
    let mut lock = CellRwLock::new(false);
    lock.lock_shared(at(5, 6));
    assert!(lock.earliest_borrow_location().is_none());
    lock.unlock_shared();
    lock.lock_exclusive(at(5, 6));
    assert!(lock.earliest_borrow_location().is_none());
}

#[test]
fn locked_iff_borrows_outstanding() {
    let mut lock = CellRwLock::new(true);
    assert!(!lock.is_locked());
    lock.lock_shared(at(1, 1));
    lock.lock_shared_recursive(at(2, 1));
    assert!(!lock.try_lock_exclusive(at(3, 1)));
    assert!(lock.is_locked());
    assert!(!lock.is_locked_exclusive());
    lock.unlock_shared();
    assert!(lock.is_locked());
    lock.unlock_shared();
    assert!(!lock.is_locked());
    assert!(lock.try_lock_exclusive(at(4, 1)));
    assert!(lock.is_locked());
    assert!(lock.is_locked_exclusive());
    lock.unlock_exclusive();
    assert!(!lock.is_locked());
}

#[test]
fn many_shared_borrows_each_need_release() {
    let mut lock = CellRwLock::new(false);
    for i in 0..100u32 {
        assert!(lock.try_lock_shared(at(i, 0)));
    }
    assert_eq!(lock.borrow_count.count, 100);
    for _ in 0..99 {
        lock.unlock_shared();
        assert!(lock.is_locked());
    }
    lock.unlock_shared();
    assert!(!lock.is_locked());
}

#[test]
fn round_trips_restore_state() {
    let mut lock = CellRwLock::new(true);
    lock.lock_shared(at(1, 2));
    let before = lock;
    assert!(lock.try_lock_shared_recursive(at(3, 4)));
    lock.unlock_shared();
    assert_eq!(lock.borrow_count, before.borrow_count);
    assert_eq!(lock.earliest_borrow_location().unwrap().line, 1);
    lock.unlock_shared();

    let before = lock;
    lock.lock_exclusive(at(5, 6));
    lock.unlock_exclusive();
    assert_eq!(lock.borrow_count, before.borrow_count);
    assert!(lock.earliest_borrow_location().is_none());
}

#[test]
fn shared_count_exhaustion_is_detected() {
    let mut lock = CellRwLock::new(false);
    assert!(!lock.is_shared_count_exhausted());
    lock.borrow_count = BorrowFlag { count: isize::MAX - 1 };
    assert!(!lock.is_shared_count_exhausted());
    assert!(lock.try_lock_shared(at(1, 1)));
    assert!(lock.is_shared_count_exhausted());
}

#[test]
fn mutex_locks_once() {
    let mut m = CellMutex::new(true);
    assert!(!m.is_locked());
    assert!(m.try_lock(at(1, 1)));
    assert!(m.is_locked());
    assert!(!m.try_lock(at(2, 1)));
    m.unlock();
    assert!(!m.is_locked());
    m.lock(at(3, 1));
    assert!(m.is_locked());
    assert_eq!(m.0.earliest_borrow_location().unwrap().line, 3);
}

#[test]
fn decimal_and_location_text() {
    let mut s = String::from("x");
    push_decimal(&mut s, 0);
    push_decimal(&mut s, 907);
    push_decimal(&mut s, u32::MAX);
    assert_eq!(s, "x09074294967295");
    let mut t = String::new();
    push_location(&mut t, BorrowLocation { file: "m.rs", line: 12, column: 3 });
    assert_eq!(t, "m.rs:12:3");
}
