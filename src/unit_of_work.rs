//! The decisions of one run of a unit of work, as a state machine: the
//! caller performs each action it returns (begin, run an operation, commit,
//! finish) and reports what came of it as the next event.
use vstd::prelude::*;
use crate::repositories::{commit_outcome, commit_result, CommitErrorOr, CommitStep, OnTransaction};

verus! {

/// Where a run stands. The last five are terminal.
#[derive(PartialEq, Eq, Structural, Clone, Copy, Debug)]
pub enum Phase {
    /// Waiting for the provider to begin a transaction or decline one.
    Beginning,
    /// One operation is running; the others wait for it.
    Executing,
    /// Every operation succeeded; the commit is under way.
    Committing,
    Committed,
    CommitFailed,
    /// An operation failed; its handle, if any, was handed back for rollback.
    RolledBack,
    /// Every operation succeeded and there was nothing to commit.
    Completed,
    BeginFailed,
}

/// What the caller is asked to do next.
#[derive(Debug)]
pub enum Action<T, E, X> {
    /// Run operation `index` of the chain, handing it `tx`.
    Execute { index: usize, tx: Option<X> },
    /// Commit the transaction `handle`.
    Commit { handle: X },
    /// Return `result` from the run; roll back `release` where it holds a
    /// handle.
    Finish { result: Result<T, CommitErrorOr<E>>, release: Option<X> },
}

/// One run over a chain of `n_ops` operations.
pub struct UnitOfWork<T> {
    n_ops: usize,
    phase: Phase,
    next: usize,
    transacted: bool,
    pending: Option<T>,
    commits: Ghost<nat>,
}

impl<T> UnitOfWork<T> {
    pub closed spec fn n_ops(self) -> nat {
        self.n_ops as nat
    }

    pub closed spec fn phase(self) -> Phase {
        self.phase
    }

    /// The operation that is running, while `phase()` is `Executing`.
    pub closed spec fn current(self) -> nat {
        self.next as nat
    }

    /// Whether the provider began a transaction for this run.
    pub closed spec fn transacted(self) -> bool {
        self.transacted
    }

    /// The value that the run yields once its commit goes through.
    pub closed spec fn pending(self) -> Option<T> {
        self.pending
    }

    /// How many `Commit` actions this run has issued so far.
    pub closed spec fn commits(self) -> nat {
        self.commits@
    }

    pub open spec fn is_terminal(self) -> bool {
        match self.phase() {
            Phase::Beginning | Phase::Executing | Phase::Committing => false,
            _ => true,
        }
    }

    /// How many operations hold (or may hold) the transaction handle now.
    pub open spec fn in_flight(self) -> nat {
        if self.phase() == Phase::Executing { 1 } else { 0 }
    }

    /// The chain is not empty and the operation index stays inside it; a
    /// value waits exactly while the commit is under way; the one commit a
    /// run may issue is counted from then on, and only a transacted run
    /// issues it.
    pub closed spec fn wf(self) -> bool {
        &&& self.n_ops >= 1
        &&& self.next < self.n_ops
        &&& (self.phase == Phase::Committing <==> self.pending is Some)
        &&& self.commits@ == (match self.phase {
            Phase::Committing | Phase::Committed | Phase::CommitFailed => 1nat,
            _ => 0nat,
        })
        &&& (self.commits@ == 1 ==> self.transacted)
        &&& (self.phase == Phase::Beginning ==> !self.transacted && self.next == 0)
    }

    /// The state and action that follow when the running operation hands
    /// back `carrier`.
    pub closed spec fn after_executed<E, X>(self, carrier: OnTransaction<T, E, X>) -> (Self, Action<T, E, X>) {
        match carrier.value {
            Err(e) => (
                UnitOfWork { phase: Phase::RolledBack, ..self },
                Action::Finish { result: Err(CommitErrorOr::OtherError(e)), release: carrier.tx },
            ),
            Ok(v) => if self.next + 1 < self.n_ops {
                (
                    UnitOfWork { next: (self.next + 1) as usize, ..self },
                    Action::Execute { index: (self.next + 1) as usize, tx: carrier.tx },
                )
            } else if self.transacted && carrier.tx is Some {
                (
                    UnitOfWork {
                        phase: Phase::Committing,
                        pending: Some(v),
                        commits: Ghost(self.commits@ + 1),
                        ..self
                    },
                    Action::Commit { handle: carrier.tx->0 },
                )
            } else {
                (
                    UnitOfWork { phase: Phase::Completed, ..self },
                    Action::Finish { result: Ok(v), release: carrier.tx },
                )
            },
        }
    }

    /// A run over a chain of `n_ops` operations, about to begin. A chain
    /// yields its last operation's value, so it holds one operation at least.
    pub fn new(n_ops: usize) -> (r: Self)
        requires
            n_ops >= 1,
        ensures
            r.wf(),
            r.n_ops() == n_ops,
            r.phase() == Phase::Beginning,
            r.commits() == 0,
    {
        UnitOfWork {
            n_ops,
            phase: Phase::Beginning,
            next: 0,
            transacted: false,
            pending: None,
            commits: Ghost(0),
        }
    }

    /// The provider answered. A failure ends the run with `OtherError` and
    /// no operation is attempted; otherwise the first operation runs with
    /// whatever the provider gave, a live handle or none.
    pub fn on_begun<E, X>(&mut self, begun: Result<Option<X>, E>) -> (r: Action<T, E, X>)
        requires
            old(self).wf(),
            old(self).phase() == Phase::Beginning,
        ensures
            final(self).wf(),
            final(self).n_ops() == old(self).n_ops(),
            final(self).commits() == old(self).commits(),
            match begun {
                Err(e) => {
                    &&& final(self).phase() == Phase::BeginFailed
                    &&& r == Action::<T, E, X>::Finish {
                        result: Err(CommitErrorOr::OtherError(e)),
                        release: None,
                    }
                },
                Ok(tx) => {
                    &&& final(self).phase() == Phase::Executing
                    &&& final(self).current() == 0
                    &&& final(self).transacted() == tx is Some
                    &&& r == Action::<T, E, X>::Execute { index: 0, tx }
                },
            },
    {
        match begun {
            Err(e) => {
                self.phase = Phase::BeginFailed;
                Action::Finish { result: Err(CommitErrorOr::OtherError(e)), release: None }
            },
            Ok(tx) => {
                self.phase = Phase::Executing;
                self.next = 0;
                self.transacted = tx.is_some();
                Action::Execute { index: 0, tx }
            },
        }
    }

    /// The running operation handed back its carrier. A failure ends the run
    /// with `OtherError`, without a commit, and hands the handle back for
    /// rollback. A success passes the handle on to the next operation, or,
    /// after the last one, asks for the one commit of the run where the run
    /// is transacted and the handle is live, or else finishes with the value
    /// as it is (releasing a handle that came back from a run without a
    /// transaction).
    pub fn on_executed<E, X>(&mut self, carrier: OnTransaction<T, E, X>) -> (r: Action<T, E, X>)
        requires
            old(self).wf(),
            old(self).phase() == Phase::Executing,
        ensures
            final(self).wf(),
            final(self).n_ops() == old(self).n_ops(),
            final(self).transacted() == old(self).transacted(),
            (*final(self), r) == old(self).after_executed(carrier),
            match carrier.value {
                Err(e) => {
                    &&& final(self).phase() == Phase::RolledBack
                    &&& final(self).commits() == old(self).commits()
                    &&& r == Action::<T, E, X>::Finish {
                        result: Err(CommitErrorOr::OtherError(e)),
                        release: carrier.tx,
                    }
                },
                Ok(v) => if old(self).current() + 1 < old(self).n_ops() {
                    &&& final(self).phase() == Phase::Executing
                    &&& final(self).current() == old(self).current() + 1
                    &&& final(self).commits() == old(self).commits()
                    &&& r == Action::<T, E, X>::Execute {
                        index: (old(self).current() + 1) as usize,
                        tx: carrier.tx,
                    }
                } else if old(self).transacted() && carrier.tx is Some {
                    &&& final(self).phase() == Phase::Committing
                    &&& final(self).pending() == Some(v)
                    &&& final(self).commits() == old(self).commits() + 1
                    &&& r == (Action::<T, E, X>::Commit { handle: carrier.tx->0 })
                } else {
                    &&& final(self).phase() == Phase::Completed
                    &&& final(self).commits() == old(self).commits()
                    &&& r == (Action::<T, E, X>::Finish { result: Ok(v), release: carrier.tx })
                },
            },
    {
        let OnTransaction { value, tx } = carrier;
        match value {
            Err(e) => {
                self.phase = Phase::RolledBack;
                Action::Finish { result: Err(CommitErrorOr::OtherError(e)), release: tx }
            },
            Ok(v) => {
                if self.next + 1 < self.n_ops {
                    self.next = self.next + 1;
                    return Action::Execute { index: self.next, tx };
                }
                if !self.transacted {
                    self.phase = Phase::Completed;
                    return Action::Finish { result: Ok(v), release: tx };
                }
                match OnTransaction::new(Ok(v), tx).and_then_commit() {
                    CommitStep::Commit { value, tx } => {
                        self.phase = Phase::Committing;
                        self.pending = Some(value);
                        self.commits = Ghost(self.commits@ + 1);
                        Action::Commit { handle: tx }
                    },
                    CommitStep::Done(result) => {
                        self.phase = Phase::Completed;
                        Action::Finish { result, release: None }
                    },
                }
            },
        }
    }

    /// The commit came back. The run finishes with the last operation's
    /// value when it went through, and with `CommitError` when it did not.
    pub fn on_committed<E, X>(&mut self, committed: Result<(), String>) -> (r: Action<T, E, X>)
        requires
            old(self).wf(),
            old(self).phase() == Phase::Committing,
        ensures
            final(self).wf(),
            final(self).n_ops() == old(self).n_ops(),
            final(self).transacted() == old(self).transacted(),
            final(self).commits() == old(self).commits(),
            committed is Ok ==> final(self).phase() == Phase::Committed,
            committed is Err ==> final(self).phase() == Phase::CommitFailed,
            r == (Action::<T, E, X>::Finish {
                result: commit_result(old(self).pending()->0, committed),
                release: None,
            }),
    {
        let value = self.pending.take().unwrap();
        self.phase = if committed.is_ok() { Phase::Committed } else { Phase::CommitFailed };
        Action::Finish { result: commit_outcome(value, committed), release: None }
    }

    pub fn phase_now(&self) -> (r: Phase)
        ensures
            r == self.phase(),
    {
        self.phase
    }

    pub fn is_transacted(&self) -> (r: bool)
        ensures
            r == self.transacted(),
    {
        self.transacted
    }
}

/// A run issues `Commit` at most once, however long its chain: every
/// transition counts the commits it issues in `commits()`, which never
/// exceeds one, and once it is one no operation runs again.
pub proof fn lemma_commit_at_most_once<T>(u: UnitOfWork<T>)
    requires
        u.wf(),
    ensures
        u.commits() <= 1,
        u.commits() == 1 ==> u.phase() != Phase::Executing && u.phase() != Phase::Beginning,
{
}

/// A run in which an operation failed has issued no commit, and as a
/// terminal state it issues nothing more: the handle goes back for rollback.
pub proof fn lemma_failed_run_never_commits<T>(u: UnitOfWork<T>)
    requires
        u.wf(),
        u.phase() == Phase::RolledBack,
    ensures
        u.commits() == 0,
        u.is_terminal(),
{
}

/// A run for which the provider began no transaction never commits.
pub proof fn lemma_untransacted_never_commits<T>(u: UnitOfWork<T>)
    requires
        u.wf(),
        !u.transacted(),
    ensures
        u.commits() == 0,
        u.phase() != Phase::Committing,
        u.phase() != Phase::Committed,
        u.phase() != Phase::CommitFailed,
{
}

/// At most one operation of a run holds the handle at any time, and it is
/// one of the chain's operations.
pub proof fn lemma_one_operation_at_a_time<T>(u: UnitOfWork<T>)
    requires
        u.wf(),
    ensures
        u.in_flight() <= 1,
        u.phase() == Phase::Executing ==> u.current() < u.n_ops(),
{
}

/// What a chain of operations yields on its own: the first failure, or the
/// last operation's value when none failed.
pub open spec fn chain_result<T, E>(results: Seq<Result<T, E>>) -> Result<T, E>
    recommends
        results.len() >= 1,
    decreases results.len(),
{
    if results.len() <= 1 {
        results[0]
    } else {
        match results[0] {
            Err(e) => Err(e),
            Ok(_) => chain_result(results.drop_first()),
        }
    }
}

/// The state and action at which a run stops when, from `u`, each operation
/// in turn yields the next of `results` and hands back the handle it was
/// given (the first one is given `tx`). It stops at the first action that is
/// not another `Execute`.
pub open spec fn run_chain<T, E, X>(u: UnitOfWork<T>, results: Seq<Result<T, E>>, tx: Option<X>) -> (UnitOfWork<T>, Action<T, E, X>)
    recommends
        results.len() >= 1,
    decreases results.len(),
{
    let (next, action) = u.after_executed(OnTransaction { value: results[0], tx });
    if results.len() <= 1 {
        (next, action)
    } else {
        match action {
            Action::Execute { index: _, tx: handed } => run_chain(next, results.drop_first(), handed),
            _ => (next, action),
        }
    }
}

/// Atomicity and the single commit, for a chain of any length run inside a
/// transaction: when some operation fails, the run ends with that (first)
/// failure as `OtherError`, hands the handle back for rollback and has
/// issued no commit; when all succeed, it asks for exactly one commit of
/// that handle and will yield the last operation's value.
pub proof fn lemma_transacted_chain<T, E, X>(u: UnitOfWork<T>, results: Seq<Result<T, E>>, h: X)
    requires
        u.wf(),
        u.phase() == Phase::Executing,
        u.transacted(),
        u.commits() == 0,
        results.len() >= 1,
        u.current() + results.len() == u.n_ops(),
    ensures
        ({
            let (last, action) = run_chain(u, results, Some(h));
            &&& last.wf()
            &&& match chain_result(results) {
                Err(e) => {
                    &&& last.phase() == Phase::RolledBack
                    &&& last.commits() == 0
                    &&& action == (Action::<T, E, X>::Finish {
                        result: Err(CommitErrorOr::OtherError(e)),
                        release: Some(h),
                    })
                },
                Ok(v) => {
                    &&& last.phase() == Phase::Committing
                    &&& last.commits() == 1
                    &&& last.pending() == Some(v)
                    &&& action == (Action::<T, E, X>::Commit { handle: h })
                },
            }
        }),
    decreases results.len(),
{
    if results.len() > 1 {
        let (next, _) = u.after_executed(OnTransaction { value: results[0], tx: Some(h) });
        if results[0] is Ok {
            lemma_transacted_chain(next, results.drop_first(), h);
        }
    }
}

/// Pass-through, for a chain of any length run without a transaction: the
/// run issues no commit and ends with the chain's own result, its failure
/// only wrapped as `OtherError`, and nothing to roll back.
pub proof fn lemma_untransacted_chain<T, E, X>(u: UnitOfWork<T>, results: Seq<Result<T, E>>)
    requires
        u.wf(),
        u.phase() == Phase::Executing,
        !u.transacted(),
        results.len() >= 1,
        u.current() + results.len() == u.n_ops(),
    ensures
        ({
            let (last, action) = run_chain(u, results, None::<X>);
            &&& last.wf()
            &&& last.commits() == 0
            &&& action == (Action::<T, E, X>::Finish {
                result: match chain_result(results) {
                    Ok(v) => Ok(v),
                    Err(e) => Err(CommitErrorOr::OtherError(e)),
                },
                release: None,
            })
        }),
    decreases results.len(),
{
    if results.len() > 1 {
        let (next, _) = u.after_executed(OnTransaction { value: results[0], tx: None::<X> });
        if results[0] is Ok {
            lemma_untransacted_chain::<T, E, X>(next, results.drop_first());
        }
    }
}

} // verus!
