use cwrdd_make::task::{
    classify_path, command_exists, run_tasks, status_outcome, verify_directory, DirError, Task,
    TaskError,
};

#[test]
fn test_simple_task() {
    let task = Task::new("test echo", "echo").args(vec!["hello".to_string(), "world".to_string()]);
    let result = task.execute();
    assert!(result.is_ok());
}

#[test]
fn test_command_exists() {
    assert!(command_exists("echo"));
    assert!(command_exists("ls"));
    assert!(!command_exists("nonexistent-command-12345"));
}

#[test]
fn test_verify_directory() {
    // Test with /tmp which should exist
    let result = verify_directory("/tmp");
    assert!(result.is_ok());

    // Test with non-existent directory
    let result = verify_directory("/nonexistent-dir-12345");
    assert!(result.is_err());
}

#[test]
fn verify_directory_distinguishes_file_from_missing() {
    match verify_directory("/nonexistent-dir-12345") {
        Err(DirError::Missing { path }) => assert_eq!(path, "/nonexistent-dir-12345"),
        _ => panic!("expected a missing-directory error"),
    }
    match verify_directory("/bin/sh") {
        Err(DirError::NotADirectory { path }) => assert_eq!(path, "/bin/sh"),
        _ => panic!("expected a not-a-directory error"),
    }
}

#[test]
fn classify_path_is_exact() {
    assert!(classify_path("/p", true, true).is_ok());
    assert!(matches!(
        classify_path("/p", false, false),
        Err(DirError::Missing { .. })
    ));
    assert!(matches!(
        classify_path("/p", true, false),
        Err(DirError::NotADirectory { .. })
    ));
}

#[test]
fn status_outcome_folds_exit_codes() {
    assert!(status_outcome("t", Some(0)).is_ok());
    match status_outcome("t", Some(3)) {
        Err(TaskError::Exit { name, code }) => {
            assert_eq!(name, "t");
            assert_eq!(code, 3);
        }
        _ => panic!("expected an exit failure"),
    }
    match status_outcome("t", None) {
        Err(TaskError::Exit { name, code }) => {
            assert_eq!(name, "t");
            assert_eq!(code, -1);
        }
        _ => panic!("expected the signal sentinel"),
    }
}

#[test]
fn execute_reports_exact_exit_code() {
    let task = Task::new("fail", "sh").args(vec!["-c".to_string(), "exit 3".to_string()]);
    match task.execute() {
        Err(TaskError::Exit { name, code }) => {
            assert_eq!(name, "fail");
            assert_eq!(code, 3);
        }
        _ => panic!("expected failure with code 3"),
    }
}

#[test]
fn execute_reports_spawn_failure_for_missing_executable() {
    let task = Task::new("ghost", "nonexistent-command-12345");
    match task.execute() {
        Err(TaskError::Spawn { name, command }) => {
            assert_eq!(name, "ghost");
            assert_eq!(command, "nonexistent-command-12345");
        }
        _ => panic!("expected a spawn failure"),
    }
}

#[test]
fn run_tasks_stops_at_first_failure() {
    let marker = "/tmp/cwrdd-make-failfast-marker";
    // Make sure no marker directory is left over from an earlier run.
    let cleanup = Task::new("cleanup", "rm").args(vec![
        "-rf".to_string(),
        marker.to_string(),
    ]);
    assert!(cleanup.execute().is_ok());
    assert!(verify_directory(marker).is_err());

    let t1 = Task::new("first", "echo").args(vec!["one".to_string()]);
    let t2 = Task::new("fail", "sh").args(vec!["-c".to_string(), "exit 3".to_string()]);
    let t3 = Task::new("marker", "mkdir").args(vec![marker.to_string()]);
    match run_tasks(vec![t1, t2, t3]) {
        Err(TaskError::Exit { name, code }) => {
            assert_eq!(name, "fail");
            assert_eq!(code, 3);
        }
        _ => panic!("expected the second task's failure"),
    }
    // The third task never ran: its directory was never created.
    assert!(verify_directory(marker).is_err());
}

#[test]
fn run_tasks_succeeds_over_all_successes() {
    let t1 = Task::new("first", "echo").args(vec!["one".to_string()]);
    let t2 = Task::new("second", "echo").args(vec!["two".to_string()]);
    assert!(run_tasks(vec![t1, t2]).is_ok());
}

#[test]
fn task_builder_sets_every_field() {
    let task = Task::new("name", "cmd")
        .args(vec!["a".to_string(), "b".to_string()])
        .working_dir("/tmp")
        .env("KEY", "value");
    assert_eq!(task.name(), "name");
    assert_eq!(task.command(), "cmd");
    assert_eq!(task.arguments(), &vec!["a".to_string(), "b".to_string()]);
    assert_eq!(task.working_directory(), &Some("/tmp".to_string()));
    assert_eq!(
        task.env_entries(),
        &vec![("KEY".to_string(), "value".to_string())]
    );
}

#[test]
fn command_line_joins_arguments_with_spaces() {
    let task = Task::new("t", "echo").args(vec!["hello".to_string(), "world".to_string()]);
    assert_eq!(task.command_line(), "echo hello world");
    let bare = Task::new("t", "true");
    assert_eq!(bare.command_line(), "true ");
}
