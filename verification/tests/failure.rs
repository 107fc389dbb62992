use kalkki::failure::{outcome, Operation, Outcome};

const OPERATIONS: [Operation; 3] = [
    Operation::RegisterLogging,
    Operation::RunEventLoop,
    Operation::ShowWindow,
];

#[test]
fn every_success_proceeds() {
    for operation in OPERATIONS {
        assert_eq!(outcome(operation, true), Outcome::Proceed);
    }
}

#[test]
fn no_failure_proceeds() {
    for operation in OPERATIONS {
        assert_ne!(outcome(operation, false), Outcome::Proceed);
    }
}

#[test]
fn failed_logging_registration_fails_setup() {
    assert_eq!(
        outcome(Operation::RegisterLogging, false),
        Outcome::SetupFailed
    );
}

#[test]
fn failed_event_loop_aborts_the_process() {
    assert_eq!(
        outcome(Operation::RunEventLoop, false),
        Outcome::ProcessAborted
    );
}

#[test]
fn showing_a_live_window_completes_the_command() {
    assert_eq!(outcome(Operation::ShowWindow, true), Outcome::Proceed);
}

#[test]
fn showing_a_destroyed_window_aborts_the_task() {
    assert_eq!(outcome(Operation::ShowWindow, false), Outcome::TaskAborted);
}

#[test]
fn aborted_process_carries_the_fatal_message() {
    assert_eq!(
        Outcome::ProcessAborted.fatal_message(),
        Some("error while running tauri application")
    );
    assert_eq!(
        outcome(Operation::RunEventLoop, false).fatal_message(),
        Some("error while running tauri application")
    );
}

#[test]
fn other_outcomes_carry_no_fatal_message() {
    assert_eq!(Outcome::Proceed.fatal_message(), None);
    assert_eq!(Outcome::SetupFailed.fatal_message(), None);
    assert_eq!(Outcome::TaskAborted.fatal_message(), None);
}
