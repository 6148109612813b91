//! Certificate trust management: the task lists that install the
//! self-signed development certificate into the system trust store and
//! remove it again.

use vstd::prelude::*;

use crate::task::{no_env, task_is, Task};

verus! {

/// Where the development certificate is installed in the system trust
/// store.
pub fn trusted_cert_destination() -> (r: String)
    ensures
        r@ == "/usr/local/share/ca-certificates/cwrdd-dev.crt"@,
{
    "/usr/local/share/ca-certificates/cwrdd-dev.crt".to_owned()
}

/// The task list that trusts the certificate system-wide: copy it into the
/// trust store, then refresh the store. Both steps run through sudo.
pub fn trust_plan(cert_path: &str) -> (r: Vec<Task>)
    ensures
        r@.len() == 2,
        task_is(
            r@[0]@,
            "copy cert"@,
            "sudo"@,
            seq!["cp"@, cert_path@, "/usr/local/share/ca-certificates/cwrdd-dev.crt"@],
            None,
            no_env(),
        ),
        task_is(
            r@[1]@,
            "update ca-certificates"@,
            "sudo"@,
            seq!["update-ca-certificates"@],
            None,
            no_env(),
        ),
{
    let copy_args = vec![
        "cp".to_owned(),
        cert_path.to_owned(),
        "/usr/local/share/ca-certificates/cwrdd-dev.crt".to_owned(),
    ];
    proof {
        assert(copy_args.deep_view() =~= seq![
            "cp"@,
            cert_path@,
            "/usr/local/share/ca-certificates/cwrdd-dev.crt"@,
        ]);
    }
    let copy_task = Task::new("copy cert", "sudo").args(copy_args);
    let update_args = vec!["update-ca-certificates".to_owned()];
    proof {
        assert(update_args.deep_view() =~= seq!["update-ca-certificates"@]);
    }
    let update_task = Task::new("update ca-certificates", "sudo").args(update_args);
    vec![copy_task, update_task]
}

/// The task list that removes trust again: delete the installed certificate
/// and rebuild the trust store from scratch. Both steps run through sudo.
pub fn untrust_plan() -> (r: Vec<Task>)
    ensures
        r@.len() == 2,
        task_is(
            r@[0]@,
            "remove cert"@,
            "sudo"@,
            seq!["rm"@, "/usr/local/share/ca-certificates/cwrdd-dev.crt"@],
            None,
            no_env(),
        ),
        task_is(
            r@[1]@,
            "update ca-certificates"@,
            "sudo"@,
            seq!["update-ca-certificates"@, "--fresh"@],
            None,
            no_env(),
        ),
{
    let remove_args = vec![
        "rm".to_owned(),
        "/usr/local/share/ca-certificates/cwrdd-dev.crt".to_owned(),
    ];
    proof {
        assert(remove_args.deep_view() =~= seq![
            "rm"@,
            "/usr/local/share/ca-certificates/cwrdd-dev.crt"@,
        ]);
    }
    let remove_task = Task::new("remove cert", "sudo").args(remove_args);
    let update_args = vec!["update-ca-certificates".to_owned(), "--fresh".to_owned()];
    proof {
        assert(update_args.deep_view() =~= seq!["update-ca-certificates"@, "--fresh"@]);
    }
    let update_task = Task::new("update ca-certificates", "sudo").args(update_args);
    vec![remove_task, update_task]
}

} // verus!
