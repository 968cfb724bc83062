use on_transaction::repositories::{commit_outcome, CommitErrorOr, CommitStep, OnTransaction};
use on_transaction::unit_of_work::{Action, Phase, UnitOfWork};

#[derive(Debug, PartialEq, Eq)]
struct Handle(u32);

type Act = Action<i64, String, Handle>;

fn carrier(value: Result<i64, String>, tx: Option<Handle>) -> OnTransaction<i64, String, Handle> {
    OnTransaction::new(value, tx)
}

/// Drives a run over `results`, handing each operation's handle straight
/// back; returns the run's result, the number of commits, and the handle
/// released for rollback.
fn drive(
    begun: Result<Option<Handle>, String>,
    results: Vec<Result<i64, String>>,
    committed: Result<(), String>,
) -> (Result<i64, CommitErrorOr<String>>, usize, Option<Handle>, Vec<usize>) {
    let mut run: UnitOfWork<i64> = UnitOfWork::new(results.len());
    let mut action: Act = run.on_begun(begun);
    let mut commits = 0;
    let mut executed = Vec::new();
    let mut committed = Some(committed);
    loop {
        match action {
            Action::Execute { index, tx } => {
                executed.push(index);
                action = run.on_executed(carrier(results[index].clone(), tx));
            }
            Action::Commit { handle: tx } => {
                commits += 1;
                drop(tx);
                action = run.on_committed(committed.take().unwrap());
            }
            Action::Finish { result, release } => return (result, commits, release, executed),
        }
    }
}

#[test]
fn test() {
    let (result, commits, _, _) = drive(Ok(None), vec![Ok(1), Ok(1)], Ok(()));
    assert_eq!(result.unwrap(), 1);
    assert_eq!(commits, 0);
}

#[test]
fn success_commits_exactly_once() {
    let (result, commits, release, executed) = drive(Ok(Some(Handle(7))), vec![Ok(1)], Ok(()));
    assert_eq!(result, Ok(1));
    assert_eq!(commits, 1);
    assert_eq!(release, None);
    assert_eq!(executed, vec![0]);
}

#[test]
fn no_transaction_success_never_commits() {
    let (result, commits, release, _) = drive(Ok(None), vec![Ok(1)], Ok(()));
    assert_eq!(result, Ok(1));
    assert_eq!(commits, 0);
    assert_eq!(release, None);
}

#[test]
fn operation_failure_is_returned_without_commit() {
    let (result, commits, release, _) =
        drive(Ok(Some(Handle(3))), vec![Err("E".to_string())], Ok(()));
    assert_eq!(result, Err(CommitErrorOr::OtherError("E".to_string())));
    assert_eq!(commits, 0);
    assert_eq!(release, Some(Handle(3)));
}

#[test]
fn commit_failure_is_distinguishable() {
    let (result, commits, _, _) =
        drive(Ok(Some(Handle(1))), vec![Ok(1), Ok(2)], Err("disk full".to_string()));
    assert_eq!(result, Err(CommitErrorOr::CommitError("disk full".to_string())));
    assert_eq!(commits, 1);
}

#[test]
fn later_failure_rolls_back_earlier_success() {
    let (result, commits, release, executed) = drive(
        Ok(Some(Handle(9))),
        vec![Ok(1), Err("late".to_string()), Ok(3)],
        Ok(()),
    );
    assert_eq!(result, Err(CommitErrorOr::OtherError("late".to_string())));
    assert_eq!(commits, 0);
    assert_eq!(release, Some(Handle(9)));
    assert_eq!(executed, vec![0, 1]);
}

#[test]
fn long_chain_commits_once_with_last_value() {
    let (result, commits, _, executed) =
        drive(Ok(Some(Handle(2))), vec![Ok(10), Ok(20), Ok(30), Ok(40), Ok(50)], Ok(()));
    assert_eq!(result, Ok(50));
    assert_eq!(commits, 1);
    assert_eq!(executed, vec![0, 1, 2, 3, 4]);
}

#[test]
fn no_transaction_failure_passes_error_through() {
    let (result, commits, release, _) =
        drive(Ok(None), vec![Ok(1), Err("bad".to_string())], Ok(()));
    assert_eq!(result, Err(CommitErrorOr::OtherError("bad".to_string())));
    assert_eq!(commits, 0);
    assert_eq!(release, None);
}

#[test]
fn begin_failure_attempts_no_operation() {
    let (result, commits, release, executed) =
        drive(Err("no connection".to_string()), vec![Ok(1)], Ok(()));
    assert_eq!(result, Err(CommitErrorOr::OtherError("no connection".to_string())));
    assert_eq!(commits, 0);
    assert_eq!(release, None);
    assert!(executed.is_empty());
}

#[test]
fn handle_is_threaded_to_the_next_operation() {
    let mut run: UnitOfWork<i64> = UnitOfWork::new(2);
    let first: Act = run.on_begun(Ok(Some(Handle(5))));
    let tx = match first {
        Action::Execute { index: 0, tx } => tx,
        other => panic!("unexpected {:?}", other),
    };
    assert_eq!(tx, Some(Handle(5)));
    let second: Act = run.on_executed(carrier(Ok(1), tx));
    match second {
        Action::Execute { index: 1, tx: Some(Handle(5)) } => {}
        other => panic!("unexpected {:?}", other),
    }
    assert_eq!(run.phase_now(), Phase::Executing);
}

#[test]
fn phases_follow_the_run() {
    let mut run: UnitOfWork<i64> = UnitOfWork::new(1);
    assert_eq!(run.phase_now(), Phase::Beginning);
    let _: Act = run.on_begun(Ok(Some(Handle(1))));
    assert_eq!(run.phase_now(), Phase::Executing);
    let _: Act = run.on_executed(carrier(Ok(4), Some(Handle(1))));
    assert_eq!(run.phase_now(), Phase::Committing);
    let done: Act = run.on_committed(Ok(()));
    assert_eq!(run.phase_now(), Phase::Committed);
    assert!(matches!(done, Action::Finish { result: Ok(4), release: None }));
}

#[test]
fn consumed_handle_skips_commit() {
    let (result, commits, _, _) = {
        let mut run: UnitOfWork<i64> = UnitOfWork::new(1);
        let _: Act = run.on_begun(Ok(Some(Handle(1))));
        match run.on_executed::<String, Handle>(carrier(Ok(8), None)) {
            Action::Finish { result, release } => (result, 0, release, ()),
            other => panic!("unexpected {:?}", other),
        }
    };
    assert_eq!(result, Ok(8));
    assert_eq!(commits, 0);
}

#[test]
fn and_then_commit_decides() {
    match carrier(Ok(1), Some(Handle(4))).and_then_commit() {
        CommitStep::Commit { value: 1, tx: Handle(4) } => {}
        _ => panic!("expected a commit"),
    }
    match carrier(Ok(2), None).and_then_commit() {
        CommitStep::Done(Ok(2)) => {}
        _ => panic!("expected the value"),
    }
    match carrier(Err("x".to_string()), Some(Handle(4))).and_then_commit() {
        CommitStep::Done(Err(CommitErrorOr::OtherError(e))) => assert_eq!(e, "x"),
        _ => panic!("expected the error"),
    }
}

#[test]
fn commit_outcome_maps_both_ways() {
    assert_eq!(commit_outcome::<i64, String>(3, Ok(())), Ok(3));
    assert_eq!(
        commit_outcome::<i64, String>(3, Err("m".to_string())),
        Err(CommitErrorOr::CommitError("m".to_string()))
    );
}

#[test]
fn stray_handle_without_transaction_is_released() {
    let mut run: UnitOfWork<i64> = UnitOfWork::new(1);
    let _: Act = run.on_begun(Ok(None));
    assert!(!run.is_transacted());
    match run.on_executed::<String, Handle>(carrier(Ok(6), Some(Handle(2)))) {
        Action::Finish { result: Ok(6), release: Some(Handle(2)) } => {}
        other => panic!("unexpected {:?}", other),
    }
    assert_eq!(run.phase_now(), Phase::Completed);
}
