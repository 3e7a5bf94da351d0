use newsletter::exit_report::{LogLevel, TaskExit};
use newsletter::report_exit;

#[test]
fn a_task_that_returned_is_reported_as_information() {
    let r = report_exit("API", TaskExit::Exited);
    assert_eq!(r.message, "API has existed");
    assert_eq!(r.level, LogLevel::Info);
    assert!(!r.with_error);
}

#[test]
fn a_task_that_failed_is_reported_as_an_error() {
    let r = report_exit("Background worket", TaskExit::Failed);
    assert_eq!(r.message, "Background worket failed");
    assert_eq!(r.level, LogLevel::Error);
    assert!(r.with_error);
}

#[test]
fn a_task_that_did_not_complete_is_reported_as_an_error() {
    let r = report_exit("API", TaskExit::NotCompleted);
    assert_eq!(r.message, "API failed to complete");
    assert_eq!(r.level, LogLevel::Error);
    assert!(r.with_error);
}
