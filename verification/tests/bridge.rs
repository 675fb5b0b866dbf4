use papyrus_linking::bridge::EvalOutcome;
use papyrus_linking::bridge::EvalPhase;
use papyrus_linking::bridge::EvaluationBridge;
use papyrus_linking::bridge::LockRequest;
use papyrus_linking::linking::LinkingArgument;

fn run_one(bridge: &mut EvaluationBridge, aborted: bool) -> (LockRequest, EvalOutcome) {
    bridge.submit();
    bridge.compile_finished();
    let lock = bridge.begin_invoke();
    let outcome = bridge.finish_invoke(aborted);
    bridge.acknowledge();
    (lock, outcome)
}

#[test]
fn completed_exclusive_evaluation_balances_the_write_lock() {
    let mut bridge = EvaluationBridge::new(LinkingArgument::BorrowMutData);
    let (lock, outcome) = run_one(&mut bridge, false);
    assert_eq!(lock, LockRequest::WriteLock);
    assert_eq!(outcome, EvalOutcome::Completed);
    assert_eq!(bridge.write_acquires, 1);
    assert_eq!(bridge.write_releases, 1);
    assert_eq!(bridge.read_acquires, 0);
    assert_eq!(bridge.read_releases, 0);
    assert_eq!(bridge.phase, EvalPhase::Idle);
}

#[test]
fn aborted_exclusive_evaluation_releases_and_reports() {
    let mut bridge = EvaluationBridge::new(LinkingArgument::BorrowMutData);
    let (lock, outcome) = run_one(&mut bridge, true);
    assert_eq!(lock, LockRequest::WriteLock);
    assert_eq!(
        outcome,
        EvalOutcome::Aborted {
            value_may_be_inconsistent: true
        }
    );
    assert_eq!(bridge.write_acquires, 1);
    assert_eq!(bridge.write_releases, 1);
    assert_eq!(bridge.phase, EvalPhase::Idle);

    let again = run_one(&mut bridge, false);
    assert_eq!(again.1, EvalOutcome::Completed);
    assert_eq!(bridge.write_acquires, 2);
    assert_eq!(bridge.write_releases, 2);

    let mut shared = EvaluationBridge::new(LinkingArgument::BorrowData);
    let (shared_lock, shared_outcome) = run_one(&mut shared, false);
    assert_eq!(shared_lock, LockRequest::ReadLock);
    assert_eq!(shared_outcome, EvalOutcome::Completed);
    assert_eq!(shared.read_acquires, 1);
    assert_eq!(shared.read_releases, 1);
}

#[test]
fn shared_abort_is_not_flagged_as_inconsistent() {
    let mut bridge = EvaluationBridge::new(LinkingArgument::BorrowData);
    let (lock, outcome) = run_one(&mut bridge, true);
    assert_eq!(lock, LockRequest::ReadLock);
    assert_eq!(
        outcome,
        EvalOutcome::Aborted {
            value_may_be_inconsistent: false
        }
    );
    assert_eq!(bridge.read_acquires, 1);
    assert_eq!(bridge.read_releases, 1);
}

#[test]
fn no_binding_locks_nothing() {
    let mut bridge = EvaluationBridge::new(LinkingArgument::NoData);
    let (lock, outcome) = run_one(&mut bridge, false);
    assert_eq!(lock, LockRequest::NoLock);
    assert_eq!(outcome, EvalOutcome::Completed);
    assert_eq!(bridge.read_acquires, 0);
    assert_eq!(bridge.write_acquires, 0);
    let (lock_again, _) = run_one(&mut bridge, true);
    assert_eq!(lock_again, LockRequest::NoLock);
    assert_eq!(bridge.read_releases, 0);
    assert_eq!(bridge.write_releases, 0);
}

#[test]
fn phases_walk_the_machine_in_order() {
    let mut bridge = EvaluationBridge::new(LinkingArgument::BorrowData);
    assert_eq!(bridge.phase, EvalPhase::Idle);
    bridge.submit();
    assert_eq!(bridge.phase, EvalPhase::Compiling);
    bridge.compile_finished();
    assert_eq!(bridge.phase, EvalPhase::Linked);
    bridge.begin_invoke();
    assert_eq!(bridge.phase, EvalPhase::Invoking);
    bridge.finish_invoke(false);
    assert_eq!(bridge.phase, EvalPhase::Completed);
    bridge.acknowledge();
    assert_eq!(bridge.phase, EvalPhase::Idle);

    bridge.submit();
    bridge.compile_finished();
    bridge.begin_invoke();
    bridge.finish_invoke(true);
    assert_eq!(bridge.phase, EvalPhase::Failed);
    bridge.acknowledge();
    assert_eq!(bridge.phase, EvalPhase::Idle);
}
