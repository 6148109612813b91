//! The test command: run the application's tests, preferring cargo-nextest
//! when it is available.

use vstd::prelude::*;

use crate::task::{no_env, task_is, Task};

verus! {

/// The task list that runs the tests: one `cargo nextest run --workspace`
/// when nextest is available, one `cargo test --workspace` otherwise,
/// either way run in the application directory.
pub fn test_plan(app_path: &str, use_nextest: bool) -> (r: Vec<Task>)
    ensures
        r@.len() == 1,
        use_nextest ==> task_is(
            r@[0]@,
            "cargo nextest run"@,
            "cargo"@,
            seq!["nextest"@, "run"@, "--workspace"@],
            Some(app_path@),
            no_env(),
        ),
        !use_nextest ==> task_is(
            r@[0]@,
            "cargo test"@,
            "cargo"@,
            seq!["test"@, "--workspace"@],
            Some(app_path@),
            no_env(),
        ),
{
    if use_nextest {
        let args = vec!["nextest".to_owned(), "run".to_owned(), "--workspace".to_owned()];
        proof {
            assert(args.deep_view() =~= seq!["nextest"@, "run"@, "--workspace"@]);
        }
        let t = Task::new("cargo nextest run", "cargo").args(args).working_dir(app_path);
        vec![t]
    } else {
        let args = vec!["test".to_owned(), "--workspace".to_owned()];
        proof {
            assert(args.deep_view() =~= seq!["test"@, "--workspace"@]);
        }
        let t = Task::new("cargo test", "cargo").args(args).working_dir(app_path);
        vec![t]
    }
}

} // verus!
