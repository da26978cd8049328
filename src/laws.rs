//! Laws of the borrow-state machine, stated over [`LockModel`] and proved.
use vstd::prelude::*;
use crate::message::{BorrowLocation, location_text};
use crate::raw::{BorrowState, LockModel};

verus! {

/// One operation on a lock, as a caller issues it.
pub ghost enum LockOp {
    AcquireShared(BorrowLocation),
    AcquireExclusive(BorrowLocation),
    ReleaseShared,
    ReleaseExclusive,
}

impl LockModel {
    /// Whether `op` may be issued in this state: a release needs a borrow of
    /// its kind, and a shared acquire needs room in the count.
    pub open spec fn permits(self, op: LockOp) -> bool {
        match op {
            LockOp::AcquireShared(_) => self.count < isize::MAX,
            LockOp::AcquireExclusive(_) => true,
            LockOp::ReleaseShared => self.state() == BorrowState::SharedBorrow,
            LockOp::ReleaseExclusive => self.state() == BorrowState::MutableBorrow,
        }
    }

    /// Whether `op` takes a borrow: an acquire that is admitted.
    pub open spec fn grants(self, op: LockOp) -> bool {
        match op {
            LockOp::AcquireShared(_) => self.admits_shared(),
            LockOp::AcquireExclusive(_) => self.admits_exclusive(),
            _ => false,
        }
    }

    /// The state after `op`; a refused acquire changes nothing.
    pub open spec fn step(self, op: LockOp) -> LockModel {
        match op {
            LockOp::AcquireShared(at) => if self.admits_shared() {
                self.borrow_shared(at)
            } else {
                self
            },
            LockOp::AcquireExclusive(at) => if self.admits_exclusive() {
                self.borrow_exclusive(at)
            } else {
                self
            },
            LockOp::ReleaseShared => self.release_shared(),
            LockOp::ReleaseExclusive => self.release_exclusive(),
        }
    }
}

/// The state after the operations `ops`, issued in order from `m`.
pub open spec fn run(m: LockModel, ops: Seq<LockOp>) -> LockModel
    decreases ops.len(),
{
    if ops.len() == 0 {
        m
    } else {
        run(m, ops.drop_last()).step(ops.last())
    }
}

/// Whether every operation of `ops` is permitted where it is issued.
pub open spec fn permitted(m: LockModel, ops: Seq<LockOp>) -> bool
    decreases ops.len(),
{
    if ops.len() == 0 {
        true
    } else {
        permitted(m, ops.drop_last()) && run(m, ops.drop_last()).permits(ops.last())
    }
}

/// The number of borrows granted by `ops` minus the number released.
pub open spec fn net_borrows(m: LockModel, ops: Seq<LockOp>) -> int
    decreases ops.len(),
{
    if ops.len() == 0 {
        0
    } else {
        let before = run(m, ops.drop_last());
        let change: int = match ops.last() {
            LockOp::ReleaseShared => -1,
            LockOp::ReleaseExclusive => -1,
            _ => if before.grants(ops.last()) {
                1
            } else {
                0
            },
        };
        net_borrows(m, ops.drop_last()) + change
    }
}

/// A permitted operation keeps a well-formed state well-formed.
pub proof fn lemma_step_wf(m: LockModel, op: LockOp)
    requires
        m.wf(),
        m.permits(op),
    ensures
        m.step(op).wf(),
{
}

/// From a fresh lock, after any permitted operations, the lock is unused
/// exactly when as many borrows were released as were granted.
pub proof fn lemma_unlocked_iff_balanced(tracking: bool, ops: Seq<LockOp>)
    requires
        permitted(LockModel::fresh(tracking), ops),
    ensures
        run(LockModel::fresh(tracking), ops).wf(),
        !run(LockModel::fresh(tracking), ops).is_locked() <==> net_borrows(
            LockModel::fresh(tracking),
            ops,
        ) == 0,
{
    lemma_outstanding_borrows(tracking, ops);
}

/// From a fresh lock the net count of borrows is the number outstanding: the
/// counter's magnitude.
proof fn lemma_outstanding_borrows(tracking: bool, ops: Seq<LockOp>)
    requires
        permitted(LockModel::fresh(tracking), ops),
    ensures
        run(LockModel::fresh(tracking), ops).wf(),
        net_borrows(LockModel::fresh(tracking), ops) == if run(
            LockModel::fresh(tracking),
            ops,
        ).count < 0 {
            -run(LockModel::fresh(tracking), ops).count
        } else {
            run(LockModel::fresh(tracking), ops).count
        },
    decreases ops.len(),
{
    if ops.len() > 0 {
        lemma_outstanding_borrows(tracking, ops.drop_last());
        lemma_step_wf(run(LockModel::fresh(tracking), ops.drop_last()), ops.last());
    }
}

/// An exclusive borrow is admitted exactly when the lock is unused; a shared
/// one exactly when it is unused or already shared.
pub proof fn lemma_admission_by_state(m: LockModel)
    ensures
        m.admits_exclusive() <==> m.state() == BorrowState::Unused,
        m.admits_shared() <==> (m.state() == BorrowState::Unused || m.state()
            == BorrowState::SharedBorrow),
{
}

/// `m` after `n` shared borrows taken at `at`.
pub open spec fn borrow_shared_times(m: LockModel, at: BorrowLocation, n: nat) -> LockModel
    decreases n,
{
    if n == 0 {
        m
    } else {
        borrow_shared_times(m, at, (n - 1) as nat).borrow_shared(at)
    }
}

/// `m` after `n` shared borrows are released.
pub open spec fn release_shared_times(m: LockModel, n: nat) -> LockModel
    decreases n,
{
    if n == 0 {
        m
    } else {
        release_shared_times(m, (n - 1) as nat).release_shared()
    }
}

/// From a fresh lock, any number of shared borrows in a row are each
/// admitted, and the lock stays in use until every one of them is released.
pub proof fn lemma_shared_borrows_nest(tracking: bool, at: BorrowLocation, n: nat, j: nat)
    requires
        n <= isize::MAX,
        j <= n,
    ensures
        forall|k: nat|
            k < n ==> #[trigger] borrow_shared_times(LockModel::fresh(tracking), at, k).permits(
                LockOp::AcquireShared(at),
            ) && borrow_shared_times(LockModel::fresh(tracking), at, k).admits_shared(),
        release_shared_times(borrow_shared_times(LockModel::fresh(tracking), at, n), j).wf(),
        release_shared_times(borrow_shared_times(LockModel::fresh(tracking), at, n), j).count
            == n - j,
        release_shared_times(borrow_shared_times(LockModel::fresh(tracking), at, n), j).is_locked()
            <==> j < n,
{
    lemma_borrow_shared_times(tracking, at, n);
    lemma_release_shared_times(borrow_shared_times(LockModel::fresh(tracking), at, n), j);
    assert forall|k: nat| k < n implies #[trigger] borrow_shared_times(
        LockModel::fresh(tracking),
        at,
        k,
    ).permits(LockOp::AcquireShared(at)) && borrow_shared_times(
        LockModel::fresh(tracking),
        at,
        k,
    ).admits_shared() by {
        lemma_borrow_shared_times(tracking, at, k);
    }
}

proof fn lemma_borrow_shared_times(tracking: bool, at: BorrowLocation, n: nat)
    requires
        n <= isize::MAX,
    ensures
        borrow_shared_times(LockModel::fresh(tracking), at, n).wf(),
        borrow_shared_times(LockModel::fresh(tracking), at, n).count == n,
    decreases n,
{
    if n > 0 {
        lemma_borrow_shared_times(tracking, at, (n - 1) as nat);
    }
}

proof fn lemma_release_shared_times(m: LockModel, j: nat)
    requires
        m.wf(),
        j <= m.count,
    ensures
        release_shared_times(m, j).wf(),
        release_shared_times(m, j).count == m.count - j,
    decreases j,
{
    if j > 0 {
        lemma_release_shared_times(m, (j - 1) as nat);
    }
}

/// A shared borrow that is admitted and then released leaves the lock exactly
/// as it was.
pub proof fn lemma_shared_round_trip(m: LockModel, at: BorrowLocation)
    requires
        m.wf(),
        m.admits_shared(),
        m.count < isize::MAX,
    ensures
        m.borrow_shared(at).release_shared() == m,
{
}

/// An exclusive borrow that is admitted and then released leaves the lock
/// exactly as it was.
pub proof fn lemma_exclusive_round_trip(m: LockModel, at: BorrowLocation)
    requires
        m.wf(),
        m.admits_exclusive(),
    ensures
        m.borrow_exclusive(at).release_exclusive() == m,
{
}

/// An exclusive borrow refused because of shared holders reports the
/// earliest holder's location when tracking is on, and only the kind of
/// conflict when it is off.
pub proof fn lemma_exclusive_conflict_message(m: LockModel)
    requires
        m.wf(),
        m.state() == BorrowState::SharedBorrow,
    ensures
        m.tracking ==> m.failure(true).text() == "Unable to exclusively borrow: Already borrowed at "@
            + location_text(m.earliest.unwrap()),
        !m.tracking ==> m.failure(true).text() == "Unable to exclusively borrow"@,
{
    reveal_strlit("Unable to ");
    reveal_strlit("exclusively ");
    reveal_strlit("borrow");
    reveal_strlit(": ");
    reveal_strlit("Already");
    reveal_strlit(" borrowed at ");
    reveal_strlit("Unable to exclusively borrow: Already borrowed at ");
    reveal_strlit("Unable to exclusively borrow");
    if m.tracking {
        assert("Unable to "@ + "exclusively "@ + "borrow"@ + ": "@ + "Already"@ + " borrowed at "@
            =~= "Unable to exclusively borrow: Already borrowed at "@);
    } else {
        assert("Unable to "@ + "exclusively "@ + "borrow"@ + Seq::<char>::empty()
            =~= "Unable to exclusively borrow"@);
    }
}

} // verus!
