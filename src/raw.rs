//! The borrow-state machine behind the single-threaded lock.
//!
//! A [`CellRwLock`] keeps a signed counter of the borrows that are active and,
//! when location tracking is switched on, where the earliest of them was
//! taken. Shared borrows may overlap one another; an exclusive borrow excludes
//! every other borrow.
use vstd::prelude::*;
use crate::message::{BorrowLocation, location_text, push_location};
use vstd::string::StringExecFns;

verus! {

/// The logical state of a [`BorrowFlag`].
#[derive(Copy, Clone, Debug, PartialEq, Eq, Structural)]
pub enum BorrowState {
    MutableBorrow,
    Unused,
    SharedBorrow,
}

/// Counts the borrows that are active, and whether they are shared or
/// exclusive.
///
/// A positive count is the number of shared borrows; a negative count is
/// minus the number of exclusive borrows; zero means unused.
#[derive(Copy, Clone, Debug, PartialEq, Eq, Structural)]
pub struct BorrowFlag {
    pub count: isize,
}

/// The state that a counter value stands for: a pure function of its sign.
pub open spec fn state_of(count: int) -> BorrowState {
    if count < 0 {
        BorrowState::MutableBorrow
    } else if count > 0 {
        BorrowState::SharedBorrow
    } else {
        BorrowState::Unused
    }
}

impl BorrowFlag {
    /// The logical state of this counter.
    pub fn state(self) -> (r: BorrowState)
        ensures
            r == state_of(self.count as int),
    {
        if self.count < 0 {
            BorrowState::MutableBorrow
        } else if self.count > 0 {
            BorrowState::SharedBorrow
        } else {
            BorrowState::Unused
        }
    }
}

/// Why a borrow was refused: the kind of borrow that was asked for, and where
/// the earliest conflicting borrow was taken, when that is known.
#[derive(Copy, Clone, Debug)]
pub struct BorrowFailError {
    pub is_exclusive: bool,
    pub existing_location: Option<BorrowLocation>,
}

impl BorrowFailError {
    /// The failure message: which kind of borrow was refused and, when it is
    /// known, where the conflicting borrow was taken.
    pub open spec fn text(self) -> Seq<char> {
        "Unable to "@ + (if self.is_exclusive {
            "exclusively "@
        } else {
            Seq::<char>::empty()
        }) + "borrow"@ + match self.existing_location {
            Some(at) => ": "@ + (if self.is_exclusive {
                "Already"@
            } else {
                "Exclusively"@
            }) + " borrowed at "@ + location_text(at),
            None => Seq::<char>::empty(),
        }
    }

    /// Writes out the failure message.
    pub fn message(&self) -> (r: String)
        ensures
            r@ == self.text(),
    {
        let mut s = String::from_str("Unable to ");
        if self.is_exclusive {
            s.append("exclusively ");
        }
        s.append("borrow");
        if let Some(at) = self.existing_location {
            s.append(": ");
            if self.is_exclusive {
                s.append("Already");
            } else {
                s.append("Exclusively");
            }
            s.append(" borrowed at ");
            push_location(&mut s, at);
        }
        s
    }
}

/// The mathematical state of a [`CellRwLock`].
pub ghost struct LockModel {
    pub count: int,
    pub earliest: Option<BorrowLocation>,
    pub tracking: bool,
}

impl LockModel {
    /// The unused state of a fresh lock.
    pub open spec fn fresh(tracking: bool) -> LockModel {
        LockModel { count: 0, earliest: None, tracking }
    }

    /// At most one exclusive borrow; the earliest location is recorded exactly
    /// while the lock is in use, and only when tracking is on.
    pub open spec fn wf(self) -> bool {
        &&& -1 <= self.count <= isize::MAX
        &&& self.tracking ==> (self.earliest is Some <==> self.count != 0)
        &&& !self.tracking ==> self.earliest is None
    }

    pub open spec fn state(self) -> BorrowState {
        state_of(self.count)
    }

    pub open spec fn is_locked(self) -> bool {
        self.count != 0
    }

    pub open spec fn is_locked_exclusive(self) -> bool {
        self.count < 0
    }

    /// A shared borrow is admitted when unused or already shared.
    pub open spec fn admits_shared(self) -> bool {
        self.count >= 0
    }

    /// An exclusive borrow is admitted only when unused.
    pub open spec fn admits_exclusive(self) -> bool {
        self.count == 0
    }

    /// What is recorded for a borrow taken at `at`.
    pub open spec fn record(self, at: BorrowLocation) -> Option<BorrowLocation> {
        if self.tracking {
            Some(at)
        } else {
            None
        }
    }

    /// The state after an admitted shared borrow taken at `at`: only the first
    /// borrow of a streak sets the location.
    pub open spec fn borrow_shared(self, at: BorrowLocation) -> LockModel {
        LockModel {
            count: self.count + 1,
            earliest: if self.count == 0 {
                self.record(at)
            } else {
                self.earliest
            },
            tracking: self.tracking,
        }
    }

    /// The state after an admitted exclusive borrow taken at `at`.
    pub open spec fn borrow_exclusive(self, at: BorrowLocation) -> LockModel {
        LockModel { count: -1, earliest: self.record(at), tracking: self.tracking }
    }

    /// The state after one shared borrow is released.
    pub open spec fn release_shared(self) -> LockModel {
        LockModel {
            count: self.count - 1,
            earliest: if self.count - 1 == 0 {
                None
            } else {
                self.earliest
            },
            tracking: self.tracking,
        }
    }

    /// The state after one exclusive borrow is released.
    pub open spec fn release_exclusive(self) -> LockModel {
        LockModel {
            count: self.count + 1,
            earliest: if self.count + 1 == 0 {
                None
            } else {
                self.earliest
            },
            tracking: self.tracking,
        }
    }

    /// The error reported for a refused borrow of the given kind.
    pub open spec fn failure(self, exclusive: bool) -> BorrowFailError {
        BorrowFailError { is_exclusive: exclusive, existing_location: self.earliest }
    }
}

/// A single-threaded read/write lock that never blocks.
///
/// Its fields are public so that a lock can be written as a constant; every
/// method asks that they satisfy [`LockModel::wf`].
#[derive(Copy, Clone, Debug)]
pub struct CellRwLock {
    pub borrow_count: BorrowFlag,
    /// The location of the earliest active borrow, while tracking is on.
    pub earliest_borrow_location: Option<BorrowLocation>,
    /// Whether borrow locations are recorded for failure messages.
    pub track_location: bool,
}

impl View for CellRwLock {
    type V = LockModel;

    open spec fn view(&self) -> LockModel {
        LockModel {
            count: self.borrow_count.count as int,
            earliest: self.earliest_borrow_location,
            tracking: self.track_location,
        }
    }
}

impl CellRwLock {
    /// A fresh, unused lock; `track_location` says whether borrow locations
    /// are recorded.
    pub fn new(track_location: bool) -> (r: CellRwLock)
        ensures
            r@ == LockModel::fresh(track_location),
            r@.wf(),
    {
        CellRwLock {
            borrow_count: BorrowFlag { count: 0 },
            earliest_borrow_location: None,
            track_location,
        }
    }

    /// The location of the earliest active borrow, when it was recorded.
    pub fn earliest_borrow_location(&self) -> (r: Option<BorrowLocation>)
        ensures
            r == self@.earliest,
    {
        self.earliest_borrow_location
    }

    /// Takes an exclusive borrow at `caller` if the lock is unused; otherwise
    /// leaves it as it is and reports the conflict.
    pub fn try_borrow_exclusively(&mut self, caller: BorrowLocation) -> (r: Result<(), BorrowFailError>)
        requires
            old(self)@.wf(),
        ensures
            final(self)@.wf(),
            r is Ok <==> old(self)@.admits_exclusive(),
            r is Ok ==> final(self)@ == old(self)@.borrow_exclusive(caller),
            r is Err ==> r == Err::<(), BorrowFailError>(old(self)@.failure(true)),
            r is Err ==> final(self)@ == old(self)@,
    {
        if matches!(self.borrow_count.state(), BorrowState::Unused) {
            self.borrow_count = BorrowFlag { count: -1 };
            if self.track_location {
                self.earliest_borrow_location = Some(caller);
            }
            Ok(())
        } else {
            Err(BorrowFailError {
                is_exclusive: true,
                existing_location: self.earliest_borrow_location(),
            })
        }
    }

    /// Whether the shared count has reached its largest value, so that one
    /// more shared borrow cannot be counted.
    pub fn is_shared_count_exhausted(&self) -> (r: bool)
        ensures
            r == (self@.count == isize::MAX),
    {
        self.borrow_count.count == isize::MAX
    }

    /// Takes a shared borrow at `caller` if the lock is unused or shared;
    /// otherwise leaves it as it is and reports the conflict.
    ///
    /// The shared count must have room for one more borrow.
    pub fn try_borrow_shared(&mut self, caller: BorrowLocation) -> (r: Result<(), BorrowFailError>)
        requires
            old(self)@.wf(),
            old(self)@.count < isize::MAX,
        ensures
            final(self)@.wf(),
            r is Ok <==> old(self)@.admits_shared(),
            r is Ok ==> final(self)@ == old(self)@.borrow_shared(caller),
            r is Err ==> r == Err::<(), BorrowFailError>(old(self)@.failure(false)),
            r is Err ==> final(self)@ == old(self)@,
    {
        let state = self.borrow_count.state();
        if matches!(state, BorrowState::Unused | BorrowState::SharedBorrow) {
            if matches!(state, BorrowState::Unused) && self.track_location {
                self.earliest_borrow_location = Some(caller);
            }
            self.borrow_count = BorrowFlag { count: self.borrow_count.count + 1 };
            Ok(())
        } else {
            Err(BorrowFailError {
                is_exclusive: false,
                existing_location: self.earliest_borrow_location(),
            })
        }
    }

    /// Releases one shared borrow, which the caller must hold.
    pub fn unlock_shared(&mut self)
        requires
            old(self)@.wf(),
            old(self)@.state() == BorrowState::SharedBorrow,
        ensures
            final(self)@.wf(),
            final(self)@ == old(self)@.release_shared(),
    {
        self.borrow_count = BorrowFlag { count: self.borrow_count.count - 1 };
        if !self.is_locked() {
            self.earliest_borrow_location = None;
        }
    }

    /// Releases the exclusive borrow, which the caller must hold.
    pub fn unlock_exclusive(&mut self)
        requires
            old(self)@.wf(),
            old(self)@.state() == BorrowState::MutableBorrow,
        ensures
            final(self)@.wf(),
            final(self)@ == old(self)@.release_exclusive(),
    {
        self.borrow_count = BorrowFlag { count: self.borrow_count.count + 1 };
        if !self.is_locked() {
            self.earliest_borrow_location = None;
        }
    }

    /// Whether any borrow is active.
    pub fn is_locked(&self) -> (r: bool)
        ensures
            r == self@.is_locked(),
    {
        match self.borrow_count.state() {
            BorrowState::Unused => false,
            BorrowState::MutableBorrow | BorrowState::SharedBorrow => true,
        }
    }

    /// Whether the exclusive borrow is active.
    pub fn is_locked_exclusive(&self) -> (r: bool)
        ensures
            r == self@.is_locked_exclusive(),
    {
        matches!(self.borrow_count.state(), BorrowState::MutableBorrow)
    }

    /// Takes a shared borrow at `caller`. The lock must not be held
    /// exclusively: there is no other thread that could release it.
    pub fn lock_shared(&mut self, caller: BorrowLocation)
        requires
            old(self)@.wf(),
            old(self)@.admits_shared(),
            old(self)@.count < isize::MAX,
        ensures
            final(self)@.wf(),
            final(self)@ == old(self)@.borrow_shared(caller),
    {
        let r = self.try_borrow_shared(caller);
        assert(r is Ok);
    }

    /// Takes a shared borrow at `caller` if one is admitted, and says whether
    /// it did.
    pub fn try_lock_shared(&mut self, caller: BorrowLocation) -> (r: bool)
        requires
            old(self)@.wf(),
            old(self)@.count < isize::MAX,
        ensures
            final(self)@.wf(),
            r == old(self)@.admits_shared(),
            r ==> final(self)@ == old(self)@.borrow_shared(caller),
            !r ==> final(self)@ == old(self)@,
    {
        self.try_borrow_shared(caller).is_ok()
    }

    /// Takes the exclusive borrow at `caller`. The lock must be unused:
    /// there is no other thread that could release it.
    pub fn lock_exclusive(&mut self, caller: BorrowLocation)
        requires
            old(self)@.wf(),
            old(self)@.admits_exclusive(),
        ensures
            final(self)@.wf(),
            final(self)@ == old(self)@.borrow_exclusive(caller),
    {
        let r = self.try_borrow_exclusively(caller);
        assert(r is Ok);
    }

    /// Takes the exclusive borrow at `caller` if the lock is unused, and says
    /// whether it did.
    pub fn try_lock_exclusive(&mut self, caller: BorrowLocation) -> (r: bool)
        requires
            old(self)@.wf(),
        ensures
            final(self)@.wf(),
            r == old(self)@.admits_exclusive(),
            r ==> final(self)@ == old(self)@.borrow_exclusive(caller),
            !r ==> final(self)@ == old(self)@,
    {
        self.try_borrow_exclusively(caller).is_ok()
    }

    /// A recursive shared borrow is an ordinary shared borrow: shared borrows
    /// nest by construction.
    pub fn lock_shared_recursive(&mut self, caller: BorrowLocation)
        requires
            old(self)@.wf(),
            old(self)@.admits_shared(),
            old(self)@.count < isize::MAX,
        ensures
            final(self)@.wf(),
            final(self)@ == old(self)@.borrow_shared(caller),
    {
        self.lock_shared(caller)
    }

    /// The non-blocking form of [`CellRwLock::lock_shared_recursive`].
    pub fn try_lock_shared_recursive(&mut self, caller: BorrowLocation) -> (r: bool)
        requires
            old(self)@.wf(),
            old(self)@.count < isize::MAX,
        ensures
            final(self)@.wf(),
            r == old(self)@.admits_shared(),
            r ==> final(self)@ == old(self)@.borrow_shared(caller),
            !r ==> final(self)@ == old(self)@,
    {
        self.try_lock_shared(caller)
    }
}

/// A single-threaded mutex: the exclusive side of a [`CellRwLock`].
#[derive(Copy, Clone, Debug)]
pub struct CellMutex(pub CellRwLock);

impl View for CellMutex {
    type V = LockModel;

    open spec fn view(&self) -> LockModel {
        self.0@
    }
}

impl CellMutex {
    /// A fresh, unlocked mutex.
    pub fn new(track_location: bool) -> (r: CellMutex)
        ensures
            r@ == LockModel::fresh(track_location),
            r@.wf(),
    {
        CellMutex(CellRwLock::new(track_location))
    }

    /// Locks the mutex at `caller`. It must be unlocked: there is no other
    /// thread that could release it.
    pub fn lock(&mut self, caller: BorrowLocation)
        requires
            old(self)@.wf(),
            old(self)@.admits_exclusive(),
        ensures
            final(self)@.wf(),
            final(self)@ == old(self)@.borrow_exclusive(caller),
    {
        self.0.lock_exclusive(caller)
    }

    /// Locks the mutex at `caller` if it is unlocked, and says whether it did.
    pub fn try_lock(&mut self, caller: BorrowLocation) -> (r: bool)
        requires
            old(self)@.wf(),
        ensures
            final(self)@.wf(),
            r == old(self)@.admits_exclusive(),
            r ==> final(self)@ == old(self)@.borrow_exclusive(caller),
            !r ==> final(self)@ == old(self)@,
    {
        self.0.try_lock_exclusive(caller)
    }

    /// Unlocks the mutex, which the caller must hold.
    pub fn unlock(&mut self)
        requires
            old(self)@.wf(),
            old(self)@.state() == BorrowState::MutableBorrow,
        ensures
            final(self)@.wf(),
            final(self)@ == old(self)@.release_exclusive(),
    {
        self.0.unlock_exclusive()
    }

    /// Whether the mutex is locked.
    pub fn is_locked(&self) -> (r: bool)
        ensures
            r == self@.is_locked(),
    {
        self.0.is_locked()
    }
}

} // verus!
