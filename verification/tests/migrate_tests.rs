use cwrdd_make::task::command_exists;
use cwrdd_make::tasks::migrate::{
    apply_plan, changeset_file_name, check_liquibase, diff_plan, extract_db_name,
    extract_property, liquibase_install_instructions, rollback_plan, seed_plan, sql_files,
    status_plan, MigrateError,
};

#[test]
fn test_extract_db_name() {
    let url = "jdbc:postgresql://localhost:5432/cwrdd_dev";
    let result = extract_db_name(url);
    assert!(result.is_ok());
    assert_eq!(result.unwrap(), "cwrdd_dev");
}

#[test]
fn test_extract_db_name_with_params() {
    let url = "jdbc:postgresql://localhost:5432/cwrdd_dev?ssl=true";
    let result = extract_db_name(url);
    assert!(result.is_ok());
    assert_eq!(result.unwrap(), "cwrdd_dev");
}

#[test]
fn test_extract_property() {
    let content = "url: jdbc:postgresql://localhost:5432/cwrdd_dev\nusername: cwrdd_user\npassword: cwrdd_password";

    let url = extract_property(content, "url");
    assert!(url.is_ok(), "Failed to extract url: {:?}", url.is_ok());
    let url_value = url.unwrap();
    assert!(
        url_value.contains("cwrdd_dev"),
        "URL '{}' doesn't contain 'cwrdd_dev'",
        url_value
    );

    let username = extract_property(content, "username");
    assert!(username.is_ok());
    assert_eq!(username.unwrap(), "cwrdd_user");
}

#[test]
fn extract_property_reports_the_missing_key() {
    let content = "url: x\n";
    match extract_property(content, "password") {
        Err(MigrateError::MissingProperty { key }) => assert_eq!(key, "password"),
        _ => panic!("expected a missing-property error"),
    }
}

#[test]
fn extract_property_skips_lines_without_a_colon() {
    let content = "username\nusername: real_value\n";
    assert_eq!(extract_property(content, "username").unwrap(), "real_value");
}

#[test]
fn extract_property_trims_whitespace() {
    let content = "  username :  padded value \n";
    assert_eq!(extract_property(content, "username").unwrap(), "padded value");
}

#[test]
fn extract_db_name_without_slash_keeps_the_whole_url() {
    assert_eq!(extract_db_name("plainname").unwrap(), "plainname");
}

#[test]
fn check_liquibase_matches_the_path_lookup() {
    assert_eq!(check_liquibase(), command_exists("liquibase"));
}

#[test]
fn instructions_name_the_tool() {
    let text = liquibase_install_instructions();
    assert!(text.contains("Liquibase is not installed"));
    assert!(text.contains("brew install liquibase"));
}

#[test]
fn apply_plan_runs_liquibase_update() {
    let plan = apply_plan("/srv/db");
    assert_eq!(plan.len(), 1);
    assert_eq!(plan[0].name(), "liquibase update");
    assert_eq!(plan[0].command(), "liquibase");
    assert_eq!(plan[0].arguments(), &vec!["update".to_string()]);
    assert_eq!(plan[0].working_directory(), &Some("/srv/db".to_string()));
    assert!(plan[0].env_entries().is_empty());
}

#[test]
fn status_plan_runs_verbose_status() {
    let plan = status_plan("/srv/db");
    assert_eq!(plan.len(), 1);
    assert_eq!(plan[0].name(), "liquibase status");
    assert_eq!(
        plan[0].arguments(),
        &vec!["status".to_string(), "--verbose".to_string()]
    );
}

#[test]
fn rollback_plan_rolls_back_one_changeset() {
    let plan = rollback_plan("/srv/db");
    assert_eq!(plan.len(), 1);
    assert_eq!(plan[0].name(), "liquibase rollback");
    assert_eq!(
        plan[0].arguments(),
        &vec!["rollbackCount".to_string(), "1".to_string()]
    );
}

#[test]
fn seed_plan_feeds_psql_with_credentials() {
    let plan = seed_plan("/srv/db", "user1", "db1", "secret", "/srv/db/seed.sql");
    assert_eq!(plan.len(), 1);
    assert_eq!(plan[0].name(), "psql seed");
    assert_eq!(plan[0].command(), "psql");
    assert_eq!(
        plan[0].arguments(),
        &vec![
            "-h".to_string(),
            "localhost".to_string(),
            "-U".to_string(),
            "user1".to_string(),
            "-d".to_string(),
            "db1".to_string(),
            "-f".to_string(),
            "/srv/db/seed.sql".to_string(),
        ]
    );
    assert_eq!(
        plan[0].env_entries(),
        &vec![("PGPASSWORD".to_string(), "secret".to_string())]
    );
    assert_eq!(plan[0].working_directory(), &Some("/srv/db".to_string()));
}

#[test]
fn changeset_file_name_appends_the_suffix() {
    assert_eq!(
        changeset_file_name("20240101-101010"),
        "20240101-101010-generated.xml"
    );
}

#[test]
fn diff_plan_writes_the_changeset_under_migrations() {
    let (plan, changeset) = diff_plan("/srv/db", "20240101-101010");
    assert_eq!(changeset, "20240101-101010-generated.xml");
    assert_eq!(plan.len(), 1);
    assert_eq!(plan[0].name(), "liquibase diffChangeLog");
    assert_eq!(
        plan[0].arguments(),
        &vec![
            "diffChangeLog".to_string(),
            "--changeLogFile".to_string(),
            "migrations/20240101-101010-generated.xml".to_string(),
        ]
    );
    assert_eq!(plan[0].working_directory(), &Some("/srv/db".to_string()));
}

#[test]
fn sql_files_keeps_only_schema_files() {
    let names = vec![
        "tables.sql".to_string(),
        "README.md".to_string(),
        "views.sql".to_string(),
        "notes.txt".to_string(),
    ];
    assert_eq!(
        sql_files(&names),
        vec!["tables.sql".to_string(), "views.sql".to_string()]
    );
    assert!(sql_files(&vec!["README.md".to_string()]).is_empty());
}
