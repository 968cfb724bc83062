//! The carrier that threads a transaction handle through a chain of
//! operations, and the decision of what to do with it once the chain ends.
use vstd::prelude::*;

verus! {

/// The error of a unit of work: either the commit itself failed, or an
/// earlier step (beginning the transaction, an operation) failed with `E`.
#[derive(Debug, PartialEq, Eq)]
pub enum CommitErrorOr<E> {
    CommitError(String),
    OtherError(E),
}

/// What one operation hands back: its result, and the transaction handle it
/// was given (or `None` where it ran without one, or consumed it).
pub struct OnTransaction<T, E, X> {
    pub value: Result<T, E>,
    pub tx: Option<X>,
}

/// What `and_then_commit` decided: commit `tx` and then yield `value`, or
/// return `Done`'s result at once.
pub enum CommitStep<T, E, X> {
    Commit { value: T, tx: X },
    Done(Result<T, CommitErrorOr<E>>),
}

impl<T, E, X> OnTransaction<T, E, X> {
    pub fn new(value: Result<T, E>, tx: Option<X>) -> (r: Self)
        ensures
            r.value == value,
            r.tx == tx,
    {
        OnTransaction { value, tx }
    }

    /// A successful result with a live handle asks for a commit; a successful
    /// result without one is returned as it is; a failure is returned as
    /// `OtherError` and the handle, if any, is dropped without a commit.
    pub fn and_then_commit(self) -> (r: CommitStep<T, E, X>)
        ensures
            r == self.commit_step(),
    {
        match self.value {
            Ok(value) => match self.tx {
                Some(tx) => CommitStep::Commit { value, tx },
                None => CommitStep::Done(Ok(value)),
            },
            Err(e) => CommitStep::Done(Err(CommitErrorOr::OtherError(e))),
        }
    }

    pub open spec fn commit_step(self) -> CommitStep<T, E, X> {
        match self.value {
            Ok(value) => match self.tx {
                Some(tx) => CommitStep::Commit { value, tx },
                None => CommitStep::Done(Ok(value)),
            },
            Err(e) => CommitStep::Done(Err(CommitErrorOr::OtherError(e))),
        }
    }
}

/// What a run yields once its commit came back with `committed`.
pub open spec fn commit_result<T, E>(value: T, committed: Result<(), String>) -> Result<T, CommitErrorOr<E>> {
    match committed {
        Ok(_) => Ok(value),
        Err(msg) => Err(CommitErrorOr::CommitError(msg)),
    }
}

/// The result of a unit of work once its commit has been attempted: the
/// operations' value when the commit went through, else `CommitError` with
/// the commit's message.
pub fn commit_outcome<T, E>(value: T, committed: Result<(), String>) -> (r: Result<T, CommitErrorOr<E>>)
    ensures
        r == commit_result::<T, E>(value, committed),
{
    match committed {
        Ok(()) => Ok(value),
        Err(msg) => Err(CommitErrorOr::CommitError(msg)),
    }
}

} // verus!
