use merchandise_catalog::contract::{ServiceError, ServiceErrorKind};
use merchandise_catalog::guarded::{
    guarded_write_step, GuardedEvent, GuardedPhase, GuardedStep, GuardedTransaction,
};
use merchandise_catalog::ports::StaleVersion;

fn tree(paths: &[&str]) -> Vec<String> {
    paths.iter().map(|p| p.to_string()).collect()
}

fn opened() -> GuardedTransaction<Vec<String>> {
    GuardedTransaction {
        subject: "category".to_owned(),
        expected_version: 3,
        phase: GuardedPhase::Checking,
        before: tree(&["/1/", "/1/2/"]),
        staged: tree(&["/1/", "/1/2/"]),
    }
}

fn moved() -> Vec<String> {
    tree(&["/1/", "/7/2/"])
}

fn updating() -> GuardedTransaction<Vec<String>> {
    match guarded_write_step(opened(), GuardedEvent::Checked(Ok(moved()))) {
        GuardedStep::RunGuardedUpdate(tx) => tx,
        _ => panic!("the rules passed, so the guarded statement runs next"),
    }
}

#[test]
fn a_matched_guarded_write_commits_its_staged_changes() {
    let tx = updating();
    assert_eq!(tx.phase, GuardedPhase::Updating);
    assert_eq!(tx.staged, moved());
    match guarded_write_step(tx, GuardedEvent::Updated(Some(moved()))) {
        GuardedStep::Commit(store) => assert_eq!(store, moved()),
        _ => panic!("a matched statement commits"),
    }
}

#[test]
fn a_stale_version_rolls_the_moved_subtree_back() {
    let probing = match guarded_write_step(updating(), GuardedEvent::Updated(None)) {
        GuardedStep::ProbeVersion(tx) => tx,
        _ => panic!("a miss is probed"),
    };
    assert_eq!(probing.phase, GuardedPhase::Probing);
    match guarded_write_step(probing, GuardedEvent::Probed(Some(5))) {
        GuardedStep::RollBack(store, answer) => {
            assert_eq!(store, tree(&["/1/", "/1/2/"]));
            assert_eq!(answer, Ok(StaleVersion { expected: 3, actual: 5 }));
        }
        _ => panic!("a stale version rolls back"),
    }
}

#[test]
fn a_missing_row_or_a_refusal_rolls_back_too() {
    let probing = match guarded_write_step(updating(), GuardedEvent::Updated(None)) {
        GuardedStep::ProbeVersion(tx) => tx,
        _ => panic!("a miss is probed"),
    };
    match guarded_write_step(probing, GuardedEvent::Probed(None)) {
        GuardedStep::RollBack(store, answer) => {
            assert_eq!(store, tree(&["/1/", "/1/2/"]));
            let error = answer.unwrap_err();
            assert_eq!(error.kind, ServiceErrorKind::NotFound);
            assert_eq!(error.message, "category was not found");
        }
        _ => panic!("a missing row rolls back"),
    }
    let refusal = ServiceError::validation_text("a category cannot be its own parent");
    match guarded_write_step(opened(), GuardedEvent::Checked(Err(refusal.clone()))) {
        GuardedStep::RollBack(store, answer) => {
            assert_eq!(store, tree(&["/1/", "/1/2/"]));
            assert_eq!(answer, Err(refusal));
        }
        _ => panic!("a refusal rolls back"),
    }
}
