use soupbin_feed::task_error::{ShutdownError, TaskError, TaskErrorKind};
use std::time::Duration;

#[test]
fn task_errors_name_the_task_and_the_kind() {
    let error = TaskError::execution("loader", "disk full");
    assert_eq!(error.task_name, "loader");
    assert!(matches!(error.kind, TaskErrorKind::Execution { ref source } if source == "disk full"));
    assert_eq!(error.to_string(), "task 'loader' failed: execution error");

    let error = TaskError::shutdown(String::from("writer"), String::from("stuck"));
    assert!(matches!(error.kind, TaskErrorKind::Shutdown { ref source } if source == "stuck"));
    assert_eq!(error.to_string(), "task 'writer' failed: shutdown handler failed");

    let error = TaskError::panic("worker", "index out of bounds");
    assert!(matches!(error.kind, TaskErrorKind::Panic { ref message } if message == "index out of bounds"));
    assert_eq!(
        error.to_string(),
        "task 'worker' failed: task panicked: index out of bounds"
    );

    let error = TaskError::new("boot", TaskErrorKind::StartupFailed { message: "no config".into() });
    assert_eq!(error.to_string(), "task 'boot' failed: startup failed: no config");
    assert_eq!(error.kind.to_string(), "startup failed: no config");
}

#[test]
fn a_kind_alone_belongs_to_an_unknown_task() {
    let error = TaskError::from(TaskErrorKind::Panic { message: "boom".into() });
    assert_eq!(error.task_name, "unknown");
    assert_eq!(error.to_string(), "task 'unknown' failed: task panicked: boom");
}

#[test]
fn shutdown_errors_say_what_went_wrong() {
    let error = ShutdownError::timeout(Duration::from_secs(5));
    assert!(matches!(error, ShutdownError::Timeout { timeout } if timeout == Duration::from_secs(5)));
    assert_eq!(error.to_string(), "shutdown timed out after 5s");
    assert_eq!(
        ShutdownError::timeout(Duration::from_millis(1500)).to_string(),
        "shutdown timed out after 1.5s"
    );

    let failures = vec![
        TaskError::panic("a", "x"),
        TaskError::execution("b", "y"),
    ];
    let error = ShutdownError::subsystems_failed(failures);
    assert!(matches!(error, ShutdownError::SubsystemsFailed { ref failures } if failures.len() == 2));
    assert_eq!(error.to_string(), "2 subsystem(s) failed during shutdown");
    assert_eq!(
        ShutdownError::subsystems_failed(Vec::new()).to_string(),
        "0 subsystem(s) failed during shutdown"
    );

    let error = ShutdownError::invalid_core_allocation("core 9 of 8");
    assert!(matches!(error, ShutdownError::InvalidCoreAllocation { ref message } if message == "core 9 of 8"));
    assert_eq!(error.to_string(), "invalid core allocation: core 9 of 8");
}
