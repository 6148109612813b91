//! Database-migration commands: the liquibase and psql task plans, the
//! properties-file parsing they need, and the liquibase availability gate.

use vstd::prelude::*;

use crate::task::{command_exists, no_env, task_is, Task};
use crate::text::{
    ends_with, find_char, first_index_of, lemma_first_index_of, split_at_char, split_on_char,
    starts_with, str_ends_with, str_starts_with, trim_str, trimmed,
};

verus! {

/// What the migration helpers can fail with: a connection property missing
/// from the properties file.
#[derive(Debug)]
pub enum MigrateError {
    MissingProperty { key: String },
}

/// The value of `key` in a properties document: scanning the lines in order,
/// the first line that (after trimming) starts with `key` and contains a
/// colon yields everything after the first colon, trimmed.
pub open spec fn property_in_lines(lines: Seq<Seq<char>>, key: Seq<char>) -> Option<Seq<char>>
    decreases lines.len(),
{
    if lines.len() == 0 {
        None
    } else {
        let t = trimmed(lines[0]);
        if starts_with(t, key) && first_index_of(t, ':') is Some {
            let j = first_index_of(t, ':')->Some_0;
            Some(trimmed(t.subrange(j + 1, t.len() as int)))
        } else {
            property_in_lines(lines.skip(1), key)
        }
    }
}

/// The value of `key` in `content`, read line by line.
pub open spec fn property_value(content: Seq<char>, key: Seq<char>) -> Option<Seq<char>> {
    property_in_lines(split_at_char(content, '\n'), key)
}

/// Extract the value of a connection property from a properties document:
/// the first line that (after trimming) starts with `key` and holds a colon
/// gives the value, everything after the first colon with surrounding
/// whitespace removed. Fails exactly when no line matches.
pub fn extract_property(content: &str, key: &str) -> (r: Result<String, MigrateError>)
    ensures
        r matches Ok(v) ==> property_value(content@, key@) == Some(v@),
        r matches Err(MigrateError::MissingProperty { key: k }) ==> property_value(content@, key@)
            is None && k@ == key@,
{
    let lines = split_on_char(content, '\n');
    let ghost all = lines.deep_view();
    proof {
        assert(all.skip(0) =~= all);
    }
    let mut i: usize = 0;
    while i < lines.len()
        invariant
            i <= lines@.len(),
            all == lines.deep_view(),
            all == split_at_char(content@, '\n'),
            property_in_lines(all.skip(i as int), key@) == property_value(content@, key@),
        decreases lines@.len() - i,
    {
        proof {
            assert(all.skip(i as int)[0] == all[i as int]);
            assert(all[i as int] == lines@[i as int]@);
            assert(all.skip(i as int).skip(1) =~= all.skip(i + 1));
        }
        let t = trim_str(lines[i].as_str());
        if str_starts_with(t.as_str(), key) {
            let tlen = t.unicode_len();
            match find_char(t.as_str(), ':') {
                Some(j) => {
                    proof {
                        lemma_first_index_of(t@, ':');
                        if first_index_of(t@, ':') is None {
                            assert(t@[j as int] != ':');
                        }
                        let k = first_index_of(t@, ':')->Some_0;
                        if k < j {
                            assert(t@[k] != ':');
                        }
                        if k > j {
                            assert(t@[j as int] != ':');
                        }
                        assert(first_index_of(t@, ':') == Some(j as int));
                    }
                    let tail = t.substring_char(j + 1, tlen);
                    let value = trim_str(tail);
                    return Ok(value);
                },
                None => {
                    proof {
                        lemma_first_index_of(t@, ':');
                        if first_index_of(t@, ':') is Some {
                            let k = first_index_of(t@, ':')->Some_0;
                            assert(t@[k] == ':');
                        }
                    }
                },
            }
        }
        i = i + 1;
    }
    proof {
        assert(all.skip(lines@.len() as int) =~= Seq::<Seq<char>>::empty());
    }
    Err(MigrateError::MissingProperty { key: key.to_owned() })
}

/// The database name in a JDBC URL: everything after the last `/`, up to
/// (not including) the first `?` that follows it; a URL without `/` counts
/// whole.
pub open spec fn db_name_of(url: Seq<char>) -> Seq<char> {
    let parts = split_at_char(url, '/');
    let last = parts[parts.len() - 1];
    split_at_char(last, '?')[0]
}

/// Extract the database name from a JDBC URL such as
/// `jdbc:postgresql://localhost:5432/dbname?params`: the segment after the
/// last slash, cut at the first question mark. Never fails.
pub fn extract_db_name(url: &str) -> (r: Result<String, MigrateError>)
    ensures
        r matches Ok(v) && v@ == db_name_of(url@),
{
    let parts = split_on_char(url, '/');
    let last = &parts[parts.len() - 1];
    let subs = split_on_char(last.as_str(), '?');
    let name = subs[0].clone();
    proof {
        assert(parts.deep_view()[parts@.len() - 1] == last@);
        assert(subs.deep_view()[0] == subs@[0]@);
    }
    Ok(name)
}

/// Whether the liquibase executable is resolvable on the search path: the
/// gate every migration command checks first.
pub fn check_liquibase() -> bool {
    command_exists("liquibase")
}

/// The remediation text shown when liquibase is missing.
pub fn liquibase_install_instructions() -> (r: String)
    ensures
        r@ == instructions_text(),
{
    String::from_str(
        "\nLiquibase is not installed. Please install it:\n\nOption 1 - Download from official site:\n  wget https://github.com/liquibase/liquibase/releases/download/v4.29.2/liquibase-4.29.2.tar.gz\n  tar -xzf liquibase-4.29.2.tar.gz\n  sudo mv liquibase /usr/local/bin/\n  \nOption 2 - Use package manager:\n  # On macOS\n  brew install liquibase\n  \n  # On Ubuntu/Debian\n  sudo apt-get install liquibase\n  \n  # On Fedora\n  sudo dnf install liquibase\n\nOption 3 - Use SDKMAN:\n  sdk install liquibase\n\nAfter installation, run this command again.\n",
    )
}

/// The task list that applies all pending migrations: one `liquibase update`
/// run in the database directory.
pub fn apply_plan(db_path: &str) -> (r: Vec<Task>)
    ensures
        r@.len() == 1,
        task_is(
            r@[0]@,
            "liquibase update"@,
            "liquibase"@,
            seq!["update"@],
            Some(db_path@),
            no_env(),
        ),
{
    let args = vec!["update".to_owned()];
    proof {
        assert(args.deep_view() =~= seq!["update"@]);
    }
    let t = Task::new("liquibase update", "liquibase").args(args).working_dir(db_path);
    vec![t]
}

/// The task list that reports migration status: one verbose
/// `liquibase status` run in the database directory.
pub fn status_plan(db_path: &str) -> (r: Vec<Task>)
    ensures
        r@.len() == 1,
        task_is(
            r@[0]@,
            "liquibase status"@,
            "liquibase"@,
            seq!["status"@, "--verbose"@],
            Some(db_path@),
            no_env(),
        ),
{
    let args = vec!["status".to_owned(), "--verbose".to_owned()];
    proof {
        assert(args.deep_view() =~= seq!["status"@, "--verbose"@]);
    }
    let t = Task::new("liquibase status", "liquibase").args(args).working_dir(db_path);
    vec![t]
}

/// The task list that rolls back the most recent changeset: one
/// `liquibase rollbackCount 1` run in the database directory.
pub fn rollback_plan(db_path: &str) -> (r: Vec<Task>)
    ensures
        r@.len() == 1,
        task_is(
            r@[0]@,
            "liquibase rollback"@,
            "liquibase"@,
            seq!["rollbackCount"@, "1"@],
            Some(db_path@),
            no_env(),
        ),
{
    let args = vec!["rollbackCount".to_owned(), "1".to_owned()];
    proof {
        assert(args.deep_view() =~= seq!["rollbackCount"@, "1"@]);
    }
    let t = Task::new("liquibase rollback", "liquibase").args(args).working_dir(db_path);
    vec![t]
}

/// The task list that seeds the database: one `psql` run of the seed file
/// against the given database, authenticated through the PGPASSWORD
/// environment entry, in the database directory.
pub fn seed_plan(
    db_path: &str,
    username: &str,
    db_name: &str,
    password: &str,
    seed_file: &str,
) -> (r: Vec<Task>)
    ensures
        r@.len() == 1,
        task_is(
            r@[0]@,
            "psql seed"@,
            "psql"@,
            seq![
                "-h"@,
                "localhost"@,
                "-U"@,
                username@,
                "-d"@,
                db_name@,
                "-f"@,
                seed_file@,
            ],
            Some(db_path@),
            seq![("PGPASSWORD"@, password@)],
        ),
{
    let args = vec![
        "-h".to_owned(),
        "localhost".to_owned(),
        "-U".to_owned(),
        username.to_owned(),
        "-d".to_owned(),
        db_name.to_owned(),
        "-f".to_owned(),
        seed_file.to_owned(),
    ];
    proof {
        assert(args.deep_view() =~= seq![
            "-h"@,
            "localhost"@,
            "-U"@,
            username@,
            "-d"@,
            db_name@,
            "-f"@,
            seed_file@,
        ]);
    }
    let t = Task::new("psql seed", "psql").args(args).working_dir(db_path).env(
        "PGPASSWORD",
        password,
    );
    proof {
        assert(t@.env_vars =~= seq![("PGPASSWORD"@, password@)]);
    }
    vec![t]
}

/// A schema file name: one that ends in `.sql`.
pub open spec fn is_sql_name(n: Seq<char>) -> bool {
    ends_with(n, ".sql"@)
}

/// The schema files among the given directory entries: those whose name
/// ends in `.sql`, in their given order.
pub fn sql_files(names: &Vec<String>) -> (r: Vec<String>)
    ensures
        r.deep_view() == names.deep_view().filter(|n: Seq<char>| is_sql_name(n)),
{
    let ghost pred = |n: Seq<char>| is_sql_name(n);
    let mut out: Vec<String> = Vec::new();
    let mut i: usize = 0;
    proof {
        assert(names.deep_view().take(0).filter(pred) =~= Seq::<Seq<char>>::empty());
        assert(out.deep_view() =~= Seq::<Seq<char>>::empty());
    }
    while i < names.len()
        invariant
            i <= names@.len(),
            out.deep_view() == names.deep_view().take(i as int).filter(pred),
            pred == (|n: Seq<char>| is_sql_name(n)),
        decreases names@.len() - i,
    {
        let ghost prefix = names.deep_view().take(i as int);
        let ghost next = names.deep_view().take(i + 1 as int);
        proof {
            reveal(Seq::filter);
            assert(next.drop_last() =~= prefix);
            assert(next.last() == names.deep_view()[i as int]);
            assert(names.deep_view()[i as int] == names@[i as int]@);
        }
        if str_ends_with(names[i].as_str(), ".sql") {
            let ghost before = out.deep_view();
            out.push(names[i].clone());
            proof {
                assert(out.deep_view() =~= before.push(names.deep_view()[i as int]));
                assert(next.filter(pred) == prefix.filter(pred).push(next.last()));
            }
        } else {
            proof {
                assert(next.filter(pred) == prefix.filter(pred));
            }
        }
        i = i + 1;
    }
    proof {
        assert(names.deep_view().take(names@.len() as int) =~= names.deep_view());
    }
    out
}

/// The file name of a generated changeset for a given timestamp.
pub fn changeset_file_name(timestamp: &str) -> (r: String)
    ensures
        r@ == timestamp@ + "-generated.xml"@,
{
    let mut r = timestamp.to_owned();
    r.append("-generated.xml");
    r
}

/// The diff plan for one timestamp: the generated changeset file name, and
/// one `liquibase diffChangeLog` task writing it under `migrations/`, run in
/// the database directory.
pub open spec fn diff_plan_is(
    tasks: Seq<Task>,
    changeset: Seq<char>,
    db_path: Seq<char>,
    timestamp: Seq<char>,
) -> bool {
    &&& changeset == timestamp + "-generated.xml"@
    &&& tasks.len() == 1
    &&& task_is(
        tasks[0]@,
        "liquibase diffChangeLog"@,
        "liquibase"@,
        seq!["diffChangeLog"@, "--changeLogFile"@, "migrations/"@ + changeset],
        Some(db_path),
        no_env(),
    )
}

/// The task list that generates a migration diff named after `timestamp`,
/// together with the changeset file name it writes.
pub fn diff_plan(db_path: &str, timestamp: &str) -> (r: (Vec<Task>, String))
    ensures
        diff_plan_is(r.0@, r.1@, db_path@, timestamp@),
{
    let changeset = changeset_file_name(timestamp);
    let mut changelog = String::from_str("migrations/");
    changelog.append(changeset.as_str());
    let args = vec!["diffChangeLog".to_owned(), "--changeLogFile".to_owned(), changelog];
    proof {
        assert(args.deep_view() =~= seq![
            "diffChangeLog"@,
            "--changeLogFile"@,
            "migrations/"@ + changeset@,
        ]);
    }
    let t = Task::new("liquibase diffChangeLog", "liquibase").args(args).working_dir(db_path);
    (vec![t], changeset)
}

/// The task list that generates a migration diff named after the current
/// local time, together with the changeset file name it writes.
pub fn diff_plan_now(db_path: &str) -> (r: (Vec<Task>, String))
    ensures
        exists|timestamp: Seq<char>| diff_plan_is(r.0@, r.1@, db_path@, timestamp),
{
    let timestamp = local_timestamp();
    let r = diff_plan(db_path, timestamp.as_str());
    proof {
        assert(diff_plan_is(r.0@, r.1@, db_path@, timestamp@));
    }
    r
}

/// Relies on chrono::Local::now and chrono::DateTime::format: the current
/// local time rendered as `YYYYMMDD-HHMMSS`. The result depends on the
/// clock and the machine's time zone; nothing is assumed of it.
#[verifier::external_body]
fn local_timestamp() -> (r: String) {
    chrono::Local::now().format("%Y%m%d-%H%M%S").to_string()
}

/// The text of [`liquibase_install_instructions`].
pub open spec fn instructions_text() -> Seq<char> {
    "\nLiquibase is not installed. Please install it:\n\nOption 1 - Download from official site:\n  wget https://github.com/liquibase/liquibase/releases/download/v4.29.2/liquibase-4.29.2.tar.gz\n  tar -xzf liquibase-4.29.2.tar.gz\n  sudo mv liquibase /usr/local/bin/\n  \nOption 2 - Use package manager:\n  # On macOS\n  brew install liquibase\n  \n  # On Ubuntu/Debian\n  sudo apt-get install liquibase\n  \n  # On Fedora\n  sudo dnf install liquibase\n\nOption 3 - Use SDKMAN:\n  sdk install liquibase\n\nAfter installation, run this command again.\n"@
}

} // verus!
