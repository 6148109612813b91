use cwrdd_make::tasks::certs::{trust_plan, trusted_cert_destination, untrust_plan};
use cwrdd_make::tasks::compile::build_plan;
use cwrdd_make::tasks::compose::{
    cert_gen_task, down_task, image_build_task, logs_task, postgres_check_task, up_task,
};
use cwrdd_make::tasks::doc::doc_plan;
use cwrdd_make::tasks::test::test_plan;

#[test]
fn build_plan_builds_the_workspace() {
    let plan = build_plan("/repo/app");
    assert_eq!(plan.len(), 1);
    assert_eq!(plan[0].name(), "cargo build");
    assert_eq!(plan[0].command(), "cargo");
    assert_eq!(
        plan[0].arguments(),
        &vec!["build".to_string(), "--workspace".to_string()]
    );
    assert_eq!(plan[0].working_directory(), &Some("/repo/app".to_string()));
}

#[test]
fn test_plan_prefers_nextest() {
    let plan = test_plan("/repo/app", true);
    assert_eq!(plan.len(), 1);
    assert_eq!(plan[0].name(), "cargo nextest run");
    assert_eq!(
        plan[0].arguments(),
        &vec![
            "nextest".to_string(),
            "run".to_string(),
            "--workspace".to_string()
        ]
    );
}

#[test]
fn test_plan_falls_back_to_cargo_test() {
    let plan = test_plan("/repo/app", false);
    assert_eq!(plan.len(), 1);
    assert_eq!(plan[0].name(), "cargo test");
    assert_eq!(
        plan[0].arguments(),
        &vec!["test".to_string(), "--workspace".to_string()]
    );
}

#[test]
fn trust_plan_copies_then_refreshes() {
    let plan = trust_plan("/repo/config/certs/cert.pem");
    assert_eq!(plan.len(), 2);
    assert_eq!(plan[0].name(), "copy cert");
    assert_eq!(plan[0].command(), "sudo");
    assert_eq!(
        plan[0].arguments(),
        &vec![
            "cp".to_string(),
            "/repo/config/certs/cert.pem".to_string(),
            trusted_cert_destination(),
        ]
    );
    assert_eq!(plan[1].name(), "update ca-certificates");
    assert_eq!(
        plan[1].arguments(),
        &vec!["update-ca-certificates".to_string()]
    );
}

#[test]
fn untrust_plan_removes_then_refreshes() {
    let plan = untrust_plan();
    assert_eq!(plan.len(), 2);
    assert_eq!(plan[0].name(), "remove cert");
    assert_eq!(
        plan[0].arguments(),
        &vec!["rm".to_string(), trusted_cert_destination()]
    );
    assert_eq!(
        plan[1].arguments(),
        &vec!["update-ca-certificates".to_string(), "--fresh".to_string()]
    );
}

#[test]
fn doc_plan_documents_both_crates() {
    let plan = doc_plan("/repo/make", "/repo/app");
    assert_eq!(plan.len(), 2);
    assert_eq!(plan[0].name(), "cargo doc (make)");
    assert_eq!(
        plan[0].arguments(),
        &vec![
            "doc".to_string(),
            "--no-deps".to_string(),
            "--document-private-items".to_string()
        ]
    );
    assert_eq!(plan[0].working_directory(), &Some("/repo/make".to_string()));
    assert_eq!(plan[1].name(), "cargo doc (app)");
    assert_eq!(plan[1].working_directory(), &Some("/repo/app".to_string()));
}

#[test]
fn up_task_recreates_only_on_request() {
    let forced = up_task("/repo", true);
    assert_eq!(
        forced.arguments(),
        &vec![
            "up".to_string(),
            "-d".to_string(),
            "--force-recreate".to_string()
        ]
    );
    let gentle = up_task("/repo", false);
    assert_eq!(
        gentle.arguments(),
        &vec![
            "up".to_string(),
            "-d".to_string(),
            "--no-recreate".to_string()
        ]
    );
    assert_eq!(gentle.command(), "podman-compose");
    assert_eq!(gentle.working_directory(), &Some("/repo".to_string()));
}

#[test]
fn down_task_stops_the_environment() {
    let t = down_task("/repo");
    assert_eq!(t.name(), "compose down");
    assert_eq!(t.arguments(), &vec!["down".to_string()]);
}

#[test]
fn logs_task_builds_its_arguments_in_order() {
    let plain = logs_task("/repo", None, false);
    assert_eq!(plain.arguments(), &vec!["logs".to_string()]);
    let follow = logs_task("/repo", None, true);
    assert_eq!(
        follow.arguments(),
        &vec!["logs".to_string(), "-f".to_string()]
    );
    let service = logs_task("/repo", Some("postgres"), false);
    assert_eq!(
        service.arguments(),
        &vec!["logs".to_string(), "postgres".to_string()]
    );
    let both = logs_task("/repo", Some("postgres"), true);
    assert_eq!(
        both.arguments(),
        &vec![
            "logs".to_string(),
            "-f".to_string(),
            "postgres".to_string()
        ]
    );
}

#[test]
fn postgres_check_task_asks_the_container() {
    let t = postgres_check_task();
    assert_eq!(t.command(), "podman");
    assert_eq!(
        t.arguments(),
        &vec![
            "exec".to_string(),
            "cwrdd-postgres".to_string(),
            "pg_isready".to_string(),
            "-U".to_string(),
            "cwrdd_user".to_string(),
            "-d".to_string(),
            "cwrdd_dev".to_string(),
        ]
    );
}

#[test]
fn cert_gen_task_writes_both_files() {
    let t = cert_gen_task("/certs/key.pem", "/certs/cert.pem");
    assert_eq!(t.command(), "openssl");
    let args = t.arguments();
    assert_eq!(args[0], "req");
    assert_eq!(args[4], "-keyout");
    assert_eq!(args[5], "/certs/key.pem");
    assert_eq!(args[6], "-out");
    assert_eq!(args[7], "/certs/cert.pem");
    assert_eq!(args.len(), 15);
}

#[test]
fn image_build_task_tags_the_local_image() {
    let t = image_build_task("/repo/app");
    assert_eq!(t.command(), "podman");
    assert_eq!(
        t.arguments(),
        &vec![
            "build".to_string(),
            "-t".to_string(),
            "cwrdd-app:local".to_string(),
            ".".to_string()
        ]
    );
    assert_eq!(t.working_directory(), &Some("/repo/app".to_string()));
}
