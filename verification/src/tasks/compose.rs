//! The environment-lifecycle commands: the container and certificate tasks
//! behind starting, stopping and inspecting the local development
//! environment, and the decisions the start-up sequence takes from tool
//! output.

use vstd::prelude::*;

use crate::task::{no_env, task_is, Task};
use crate::text::{
    contains_substring, has_substring, parse_i32_or_zero, parsed_i32_or_zero, trim_str, trimmed,
};

verus! {

/// The task that generates the self-signed development certificate pair:
/// one openssl run writing the key and certificate files.
pub fn cert_gen_task(key_path: &str, cert_path: &str) -> (r: Task)
    ensures
        task_is(
            r@,
            "generate certs"@,
            "openssl"@,
            seq![
                "req"@,
                "-x509"@,
                "-newkey"@,
                "rsa:4096"@,
                "-keyout"@,
                key_path@,
                "-out"@,
                cert_path@,
                "-days"@,
                "365"@,
                "-nodes"@,
                "-subj"@,
                "/CN=localhost/O=cwrdd-dev"@,
                "-addext"@,
                "subjectAltName=DNS:localhost,IP:127.0.0.1"@,
            ],
            None,
            no_env(),
        ),
{
    let args = vec![
        "req".to_owned(),
        "-x509".to_owned(),
        "-newkey".to_owned(),
        "rsa:4096".to_owned(),
        "-keyout".to_owned(),
        key_path.to_owned(),
        "-out".to_owned(),
        cert_path.to_owned(),
        "-days".to_owned(),
        "365".to_owned(),
        "-nodes".to_owned(),
        "-subj".to_owned(),
        "/CN=localhost/O=cwrdd-dev".to_owned(),
        "-addext".to_owned(),
        "subjectAltName=DNS:localhost,IP:127.0.0.1".to_owned(),
    ];
    proof {
        assert(args.deep_view() =~= seq![
            "req"@,
            "-x509"@,
            "-newkey"@,
            "rsa:4096"@,
            "-keyout"@,
            key_path@,
            "-out"@,
            cert_path@,
            "-days"@,
            "365"@,
            "-nodes"@,
            "-subj"@,
            "/CN=localhost/O=cwrdd-dev"@,
            "-addext"@,
            "subjectAltName=DNS:localhost,IP:127.0.0.1"@,
        ]);
    }
    Task::new("generate certs", "openssl").args(args)
}

/// The task that builds the application's container image in the
/// application directory.
pub fn image_build_task(app_path: &str) -> (r: Task)
    ensures
        task_is(
            r@,
            "docker build"@,
            "podman"@,
            seq!["build"@, "-t"@, "cwrdd-app:local"@, "."@],
            Some(app_path@),
            no_env(),
        ),
{
    let args = vec![
        "build".to_owned(),
        "-t".to_owned(),
        "cwrdd-app:local".to_owned(),
        ".".to_owned(),
    ];
    proof {
        assert(args.deep_view() =~= seq!["build"@, "-t"@, "cwrdd-app:local"@, "."@]);
    }
    Task::new("docker build", "podman").args(args).working_dir(app_path)
}

/// The task that starts the containers in the repository root, detached;
/// with `recreate` they are force-recreated, otherwise existing containers
/// are kept.
pub fn up_task(repo_path: &str, recreate: bool) -> (r: Task)
    ensures
        recreate ==> task_is(
            r@,
            "compose up"@,
            "podman-compose"@,
            seq!["up"@, "-d"@, "--force-recreate"@],
            Some(repo_path@),
            no_env(),
        ),
        !recreate ==> task_is(
            r@,
            "compose up"@,
            "podman-compose"@,
            seq!["up"@, "-d"@, "--no-recreate"@],
            Some(repo_path@),
            no_env(),
        ),
{
    if recreate {
        let args = vec!["up".to_owned(), "-d".to_owned(), "--force-recreate".to_owned()];
        proof {
            assert(args.deep_view() =~= seq!["up"@, "-d"@, "--force-recreate"@]);
        }
        Task::new("compose up", "podman-compose").args(args).working_dir(repo_path)
    } else {
        let args = vec!["up".to_owned(), "-d".to_owned(), "--no-recreate".to_owned()];
        proof {
            assert(args.deep_view() =~= seq!["up"@, "-d"@, "--no-recreate"@]);
        }
        Task::new("compose up", "podman-compose").args(args).working_dir(repo_path)
    }
}

/// The task that stops the containers, run in the repository root.
pub fn down_task(repo_path: &str) -> (r: Task)
    ensures
        task_is(
            r@,
            "compose down"@,
            "podman-compose"@,
            seq!["down"@],
            Some(repo_path@),
            no_env(),
        ),
{
    let args = vec!["down".to_owned()];
    proof {
        assert(args.deep_view() =~= seq!["down"@]);
    }
    Task::new("compose down", "podman-compose").args(args).working_dir(repo_path)
}

/// The arguments of the logs task: `logs`, then `-f` when following, then
/// the service name when one was given.
pub open spec fn logs_args(follow: bool, service: Option<Seq<char>>) -> Seq<Seq<char>> {
    seq!["logs"@] + (if follow {
        seq!["-f"@]
    } else {
        Seq::empty()
    }) + (match service {
        Some(s) => seq![s],
        None => Seq::empty(),
    })
}

/// The task that shows container logs, run in the repository root:
/// optionally following, optionally restricted to one service.
pub fn logs_task(repo_path: &str, service: Option<&str>, follow: bool) -> (r: Task)
    ensures
        task_is(
            r@,
            "compose logs"@,
            "podman-compose"@,
            logs_args(follow, service.deep_view()),
            Some(repo_path@),
            no_env(),
        ),
{
    let mut args = vec!["logs".to_owned()];
    if follow {
        args.push("-f".to_owned());
    }
    match service {
        Some(svc) => {
            args.push(svc.to_owned());
        },
        None => {},
    }
    proof {
        assert(args.deep_view() =~= logs_args(follow, service.deep_view()));
    }
    Task::new("compose logs", "podman-compose").args(args).working_dir(repo_path)
}

/// The task that asks the database container whether PostgreSQL accepts
/// connections yet; its success is the readiness signal the start-up
/// sequence polls for.
pub fn postgres_check_task() -> (r: Task)
    ensures
        task_is(
            r@,
            "check postgres"@,
            "podman"@,
            seq![
                "exec"@,
                "cwrdd-postgres"@,
                "pg_isready"@,
                "-U"@,
                "cwrdd_user"@,
                "-d"@,
                "cwrdd_dev"@,
            ],
            None,
            no_env(),
        ),
{
    let args = vec![
        "exec".to_owned(),
        "cwrdd-postgres".to_owned(),
        "pg_isready".to_owned(),
        "-U".to_owned(),
        "cwrdd_user".to_owned(),
        "-d".to_owned(),
        "cwrdd_dev".to_owned(),
    ];
    proof {
        assert(args.deep_view() =~= seq![
            "exec"@,
            "cwrdd-postgres"@,
            "pg_isready"@,
            "-U"@,
            "cwrdd_user"@,
            "-d"@,
            "cwrdd_dev"@,
        ]);
    }
    Task::new("check postgres", "podman").args(args)
}

/// Decide from the migration status report whether migrations are pending:
/// they are exactly when the report says changesets have not been applied
/// or the database is not up to date.
pub fn migration_pending(status_output: &str) -> (r: bool)
    ensures
        r == (has_substring(status_output@, "changesets have not been applied"@) || has_substring(
            status_output@,
            "is not up to date"@,
        )),
{
    contains_substring(status_output, "changesets have not been applied") || contains_substring(
        status_output,
        "is not up to date",
    )
}

/// The number of tables a count query reported: its output trimmed and read
/// as a decimal number, 0 when it is no number.
pub fn table_count(count_output: &str) -> (r: i32)
    ensures
        r as int == parsed_i32_or_zero(trimmed(count_output@)),
{
    let t = trim_str(count_output);
    parse_i32_or_zero(t.as_str())
}

/// Decide from the probe results whether the database still needs seed
/// data: there are tables, and the data probe did not report `f` (false).
pub fn seed_needed(table_count: i32, has_data_output: &str) -> (r: bool)
    ensures
        r == (table_count > 0 && !has_substring(has_data_output@, "f"@)),
{
    table_count > 0 && !contains_substring(has_data_output, "f")
}

} // verus!
