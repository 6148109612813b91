//! The build command: compile the application workspace.

use vstd::prelude::*;

use crate::task::{no_env, task_is, Task};

verus! {

/// The task list that builds the application: one `cargo build --workspace`
/// run in the application directory.
pub fn build_plan(app_path: &str) -> (r: Vec<Task>)
    ensures
        r@.len() == 1,
        task_is(
            r@[0]@,
            "cargo build"@,
            "cargo"@,
            seq!["build"@, "--workspace"@],
            Some(app_path@),
            no_env(),
        ),
{
    let args = vec!["build".to_owned(), "--workspace".to_owned()];
    proof {
        assert(args.deep_view() =~= seq!["build"@, "--workspace"@]);
    }
    let t = Task::new("cargo build", "cargo").args(args).working_dir(app_path);
    vec![t]
}

} // verus!
