//! The documentation command: build rustdoc for the build tool and for the
//! application.

use vstd::prelude::*;

use crate::task::{no_env, task_is, Task};

verus! {

/// The task list that builds the documentation: rustdoc for the build tool
/// (private items included) in `make_path`, then rustdoc for the
/// application in `app_path`.
pub fn doc_plan(make_path: &str, app_path: &str) -> (r: Vec<Task>)
    ensures
        r@.len() == 2,
        task_is(
            r@[0]@,
            "cargo doc (make)"@,
            "cargo"@,
            seq!["doc"@, "--no-deps"@, "--document-private-items"@],
            Some(make_path@),
            no_env(),
        ),
        task_is(
            r@[1]@,
            "cargo doc (app)"@,
            "cargo"@,
            seq!["doc"@, "--no-deps"@],
            Some(app_path@),
            no_env(),
        ),
{
    let make_args = vec!["doc".to_owned(), "--no-deps".to_owned(), "--document-private-items".to_owned()];
    proof {
        assert(make_args.deep_view() =~= seq!["doc"@, "--no-deps"@, "--document-private-items"@]);
    }
    let make_doc = Task::new("cargo doc (make)", "cargo").args(make_args).working_dir(make_path);
    let app_args = vec!["doc".to_owned(), "--no-deps".to_owned()];
    proof {
        assert(app_args.deep_view() =~= seq!["doc"@, "--no-deps"@]);
    }
    let app_doc = Task::new("cargo doc (app)", "cargo").args(app_args).working_dir(app_path);
    vec![make_doc, app_doc]
}

} // verus!
