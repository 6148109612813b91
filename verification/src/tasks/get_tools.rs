//! The tool-installation command: which development tools are present,
//! which operating system the release file describes, and the exact task
//! lists that install what is missing on Ubuntu/Debian and on macOS.

use vstd::prelude::*;

use crate::task::{command_exists, no_env, Task, TaskView};
use crate::text::{contains_substring, has_substring};

verus! {

/// Which of the required development tools are already resolvable on the
/// search path.
#[derive(Clone, Copy)]
pub struct ToolAvailability {
    pub podman: bool,
    pub podman_compose: bool,
    pub liquibase: bool,
    pub psql: bool,
    pub nextest: bool,
    pub java: bool,
}

/// Probe the search path for every tool the development environment needs.
pub fn probe_tools() -> ToolAvailability {
    ToolAvailability {
        podman: command_exists("podman"),
        podman_compose: command_exists("podman-compose"),
        liquibase: command_exists("liquibase"),
        psql: command_exists("psql"),
        nextest: command_exists("cargo-nextest"),
        java: command_exists("java"),
    }
}

/// Every tool that the installation commands would install is present
/// (java is only a prerequisite, not a goal).
pub open spec fn all_present(a: ToolAvailability) -> bool {
    a.podman && a.podman_compose && a.liquibase && a.psql && a.nextest
}

/// Check whether anything is left to install.
pub fn tools_all_present(a: &ToolAvailability) -> (r: bool)
    ensures
        r == all_present(*a),
{
    a.podman && a.podman_compose && a.liquibase && a.psql && a.nextest
}

/// The distribution label a Linux release file describes: `ubuntu` or
/// `debian` when the file names them (in either case), plain `linux`
/// otherwise.
pub open spec fn os_label(release_content: Seq<char>) -> Seq<char> {
    if has_substring(release_content, "ubuntu"@) || has_substring(release_content, "Ubuntu"@) {
        "ubuntu"@
    } else if has_substring(release_content, "debian"@) || has_substring(
        release_content,
        "Debian"@,
    ) {
        "debian"@
    } else {
        "linux"@
    }
}

/// Classify a Linux distribution from the text of its release file.
pub fn classify_linux_release(release_content: &str) -> (r: String)
    ensures
        r@ == os_label(release_content@),
{
    if contains_substring(release_content, "ubuntu") || contains_substring(
        release_content,
        "Ubuntu",
    ) {
        "ubuntu".to_owned()
    } else if contains_substring(release_content, "debian") || contains_substring(
        release_content,
        "Debian",
    ) {
        "debian".to_owned()
    } else {
        "linux".to_owned()
    }
}

/// A task with no working-directory override and no extra environment.
pub open spec fn shell_task(name: Seq<char>, command: Seq<char>, args: Seq<Seq<char>>) -> TaskView {
    TaskView { name, command, args, working_dir: None, env_vars: no_env() }
}

/// An apt installation of one package, through sudo.
pub open spec fn apt_install_task(name: Seq<char>, package: Seq<char>) -> TaskView {
    shell_task(name, "sudo"@, seq!["apt"@, "install"@, "-y"@, package])
}

/// A Homebrew installation of one package.
pub open spec fn brew_install_task(name: Seq<char>, package: Seq<char>) -> TaskView {
    shell_task(name, "brew"@, seq!["install"@, package])
}

/// The manual liquibase installation: download the release archive, unpack
/// it under /opt, link it onto the search path, and clean up.
pub open spec fn liquibase_manual_tasks() -> Seq<TaskView> {
    seq![
        shell_task(
            "download liquibase"@,
            "wget"@,
            seq![
                "-q"@,
                "https://github.com/liquibase/liquibase/releases/download/v4.29.2/liquibase-4.29.2.tar.gz"@,
                "-O"@,
                "/tmp/liquibase.tar.gz"@,
            ],
        ),
        shell_task("create liquibase dir"@, "sudo"@, seq!["mkdir"@, "-p"@, "/opt/liquibase"@]),
        shell_task(
            "extract liquibase"@,
            "sudo"@,
            seq!["tar"@, "-xzf"@, "/tmp/liquibase.tar.gz"@, "-C"@, "/opt/liquibase"@],
        ),
        shell_task(
            "symlink liquibase"@,
            "sudo"@,
            seq!["ln"@, "-sf"@, "/opt/liquibase/liquibase"@, "/usr/local/bin/liquibase"@],
        ),
        shell_task("chmod liquibase"@, "sudo"@, seq!["chmod"@, "+x"@, "/usr/local/bin/liquibase"@]),
        shell_task("cleanup"@, "rm"@, seq!["/tmp/liquibase.tar.gz"@]),
    ]
}

/// The Ubuntu/Debian package plan: an apt refresh when any package is
/// missing, then an apt installation for each missing tool, and for a
/// missing liquibase its Java prerequisite (when absent) followed by the
/// manual installation steps.
pub open spec fn ubuntu_package_plan(a: ToolAvailability) -> Seq<TaskView> {
    (if !a.podman || !a.podman_compose || !a.liquibase || !a.psql {
        seq![shell_task("apt update"@, "sudo"@, seq!["apt"@, "update"@])]
    } else {
        Seq::empty()
    }) + (if !a.podman {
        seq![apt_install_task("install podman"@, "podman"@)]
    } else {
        Seq::empty()
    }) + (if !a.podman_compose {
        seq![apt_install_task("install podman-compose"@, "podman-compose"@)]
    } else {
        Seq::empty()
    }) + (if !a.psql {
        seq![apt_install_task("install postgresql-client"@, "postgresql-client"@)]
    } else {
        Seq::empty()
    }) + (if !a.liquibase {
        (if !a.java {
            seq![apt_install_task("install java"@, "default-jre"@)]
        } else {
            Seq::empty()
        }) + liquibase_manual_tasks()
    } else {
        Seq::empty()
    })
}

/// The macOS package plan: a Homebrew installation for each missing tool.
pub open spec fn macos_package_plan(a: ToolAvailability) -> Seq<TaskView> {
    (if !a.podman {
        seq![brew_install_task("brew install podman"@, "podman"@)]
    } else {
        Seq::empty()
    }) + (if !a.podman_compose {
        seq![brew_install_task("brew install podman-compose"@, "podman-compose"@)]
    } else {
        Seq::empty()
    }) + (if !a.liquibase {
        seq![brew_install_task("brew install liquibase"@, "liquibase"@)]
    } else {
        Seq::empty()
    }) + (if !a.psql {
        seq![brew_install_task("brew install postgresql"@, "postgresql@16"@)]
    } else {
        Seq::empty()
    })
}

/// The cargo-nextest plan: one cargo installation when it is missing (it
/// needs no elevated rights and runs apart from the package plan).
pub open spec fn nextest_plan(a: ToolAvailability) -> Seq<TaskView> {
    if !a.nextest {
        seq![
            shell_task(
                "install cargo-nextest"@,
                "cargo"@,
                seq!["install"@, "cargo-nextest"@, "--locked"@],
            ),
        ]
    } else {
        Seq::empty()
    }
}

/// The podman socket plan: enable and start the user socket after podman
/// was just installed (both steps may fail outside systemd, which the
/// caller tolerates).
pub open spec fn podman_socket_plan(a: ToolAvailability) -> Seq<TaskView> {
    if !a.podman {
        seq![
            shell_task(
                "enable podman socket"@,
                "systemctl"@,
                seq!["--user"@, "enable"@, "podman.socket"@],
            ),
            shell_task(
                "start podman socket"@,
                "systemctl"@,
                seq!["--user"@, "start"@, "podman.socket"@],
            ),
        ]
    } else {
        Seq::empty()
    }
}

/// Build a task with no working directory and no environment entries.
fn shell(name: &str, command: &str, args: Vec<String>) -> (t: Task)
    ensures
        t@ == shell_task(name@, command@, args.deep_view()),
{
    let t = Task::new(name, command).args(args);
    proof {
        assert(t@ =~= shell_task(name@, command@, t@.args));
    }
    t
}

/// Build an apt installation task for one package.
fn apt_install(name: &str, package: &str) -> (t: Task)
    ensures
        t@ == apt_install_task(name@, package@),
{
    let args = vec!["apt".to_owned(), "install".to_owned(), "-y".to_owned(), package.to_owned()];
    proof {
        assert(args.deep_view() =~= seq!["apt"@, "install"@, "-y"@, package@]);
    }
    shell(name, "sudo", args)
}

/// Build a Homebrew installation task for one package.
fn brew_install(name: &str, package: &str) -> (t: Task)
    ensures
        t@ == brew_install_task(name@, package@),
{
    let args = vec!["install".to_owned(), package.to_owned()];
    proof {
        assert(args.deep_view() =~= seq!["install"@, package@]);
    }
    shell(name, "brew", args)
}

/// Append one task to a plan.
fn push_task(plan: &mut Vec<Task>, t: Task)
    ensures
        final(plan)@.map_values(|x: Task| x@) == old(plan)@.map_values(|x: Task| x@) + seq![t@],
{
    let ghost before = plan@.map_values(|x: Task| x@);
    plan.push(t);
    proof {
        assert(plan@.map_values(|x: Task| x@) =~= before + seq![t@]);
    }
}

/// The task list that installs the missing tools on Ubuntu/Debian, exactly
/// the Ubuntu package plan for the probed availability.
pub fn ubuntu_install_plan(a: &ToolAvailability) -> (r: Vec<Task>)
    ensures
        r@.map_values(|x: Task| x@) == ubuntu_package_plan(*a),
{
    let ghost s0: Seq<TaskView> = if !a.podman || !a.podman_compose || !a.liquibase || !a.psql {
        seq![shell_task("apt update"@, "sudo"@, seq!["apt"@, "update"@])]
    } else {
        Seq::empty()
    };
    let ghost s1: Seq<TaskView> = if !a.podman {
        seq![apt_install_task("install podman"@, "podman"@)]
    } else {
        Seq::empty()
    };
    let ghost s2: Seq<TaskView> = if !a.podman_compose {
        seq![apt_install_task("install podman-compose"@, "podman-compose"@)]
    } else {
        Seq::empty()
    };
    let ghost s3: Seq<TaskView> = if !a.psql {
        seq![apt_install_task("install postgresql-client"@, "postgresql-client"@)]
    } else {
        Seq::empty()
    };
    let ghost s4: Seq<TaskView> = if !a.liquibase {
        (if !a.java {
            seq![apt_install_task("install java"@, "default-jre"@)]
        } else {
            Seq::empty()
        }) + liquibase_manual_tasks()
    } else {
        Seq::empty()
    };
    let mut plan: Vec<Task> = Vec::new();
    proof {
        assert(plan@.map_values(|x: Task| x@) =~= Seq::<TaskView>::empty());
    }
    if !a.podman || !a.podman_compose || !a.liquibase || !a.psql {
        let args = vec!["apt".to_owned(), "update".to_owned()];
        proof {
            assert(args.deep_view() =~= seq!["apt"@, "update"@]);
        }
        push_task(&mut plan, shell("apt update", "sudo", args));
    }
    proof {
        assert(plan@.map_values(|x: Task| x@) =~= s0);
    }
    if !a.podman {
        push_task(&mut plan, apt_install("install podman", "podman"));
    }
    proof {
        assert(plan@.map_values(|x: Task| x@) =~= s0 + s1);
    }
    if !a.podman_compose {
        push_task(&mut plan, apt_install("install podman-compose", "podman-compose"));
    }
    proof {
        assert(plan@.map_values(|x: Task| x@) =~= s0 + s1 + s2);
    }
    if !a.psql {
        push_task(&mut plan, apt_install("install postgresql-client", "postgresql-client"));
    }
    proof {
        assert(plan@.map_values(|x: Task| x@) =~= s0 + s1 + s2 + s3);
    }
    if !a.liquibase {
        if !a.java {
            push_task(&mut plan, apt_install("install java", "default-jre"));
        }
        let wget_args = vec![
            "-q".to_owned(),
            "https://github.com/liquibase/liquibase/releases/download/v4.29.2/liquibase-4.29.2.tar.gz".to_owned(),
            "-O".to_owned(),
            "/tmp/liquibase.tar.gz".to_owned(),
        ];
        proof {
            assert(wget_args.deep_view() =~= seq![
                "-q"@,
                "https://github.com/liquibase/liquibase/releases/download/v4.29.2/liquibase-4.29.2.tar.gz"@,
                "-O"@,
                "/tmp/liquibase.tar.gz"@,
            ]);
        }
        push_task(&mut plan, shell("download liquibase", "wget", wget_args));
        let mkdir_args = vec!["mkdir".to_owned(), "-p".to_owned(), "/opt/liquibase".to_owned()];
        proof {
            assert(mkdir_args.deep_view() =~= seq!["mkdir"@, "-p"@, "/opt/liquibase"@]);
        }
        push_task(&mut plan, shell("create liquibase dir", "sudo", mkdir_args));
        let tar_args = vec![
            "tar".to_owned(),
            "-xzf".to_owned(),
            "/tmp/liquibase.tar.gz".to_owned(),
            "-C".to_owned(),
            "/opt/liquibase".to_owned(),
        ];
        proof {
            assert(tar_args.deep_view() =~= seq![
                "tar"@,
                "-xzf"@,
                "/tmp/liquibase.tar.gz"@,
                "-C"@,
                "/opt/liquibase"@,
            ]);
        }
        push_task(&mut plan, shell("extract liquibase", "sudo", tar_args));
        let ln_args = vec![
            "ln".to_owned(),
            "-sf".to_owned(),
            "/opt/liquibase/liquibase".to_owned(),
            "/usr/local/bin/liquibase".to_owned(),
        ];
        proof {
            assert(ln_args.deep_view() =~= seq![
                "ln"@,
                "-sf"@,
                "/opt/liquibase/liquibase"@,
                "/usr/local/bin/liquibase"@,
            ]);
        }
        push_task(&mut plan, shell("symlink liquibase", "sudo", ln_args));
        let chmod_args = vec![
            "chmod".to_owned(),
            "+x".to_owned(),
            "/usr/local/bin/liquibase".to_owned(),
        ];
        proof {
            assert(chmod_args.deep_view() =~= seq!["chmod"@, "+x"@, "/usr/local/bin/liquibase"@]);
        }
        push_task(&mut plan, shell("chmod liquibase", "sudo", chmod_args));
        let rm_args = vec!["/tmp/liquibase.tar.gz".to_owned()];
        proof {
            assert(rm_args.deep_view() =~= seq!["/tmp/liquibase.tar.gz"@]);
        }
        push_task(&mut plan, shell("cleanup", "rm", rm_args));
    }
    proof {
        assert(plan@.map_values(|x: Task| x@) =~= s0 + s1 + s2 + s3 + s4);
        assert(ubuntu_package_plan(*a) == s0 + s1 + s2 + s3 + s4);
    }
    plan
}

/// The task list that installs the missing tools on macOS, exactly the
/// macOS package plan for the probed availability.
pub fn macos_install_plan(a: &ToolAvailability) -> (r: Vec<Task>)
    ensures
        r@.map_values(|x: Task| x@) == macos_package_plan(*a),
{
    let ghost s0: Seq<TaskView> = if !a.podman {
        seq![brew_install_task("brew install podman"@, "podman"@)]
    } else {
        Seq::empty()
    };
    let ghost s1: Seq<TaskView> = if !a.podman_compose {
        seq![brew_install_task("brew install podman-compose"@, "podman-compose"@)]
    } else {
        Seq::empty()
    };
    let ghost s2: Seq<TaskView> = if !a.liquibase {
        seq![brew_install_task("brew install liquibase"@, "liquibase"@)]
    } else {
        Seq::empty()
    };
    let ghost s3: Seq<TaskView> = if !a.psql {
        seq![brew_install_task("brew install postgresql"@, "postgresql@16"@)]
    } else {
        Seq::empty()
    };
    let mut plan: Vec<Task> = Vec::new();
    proof {
        assert(plan@.map_values(|x: Task| x@) =~= Seq::<TaskView>::empty());
    }
    if !a.podman {
        push_task(&mut plan, brew_install("brew install podman", "podman"));
    }
    proof {
        assert(plan@.map_values(|x: Task| x@) =~= s0);
    }
    if !a.podman_compose {
        push_task(&mut plan, brew_install("brew install podman-compose", "podman-compose"));
    }
    proof {
        assert(plan@.map_values(|x: Task| x@) =~= s0 + s1);
    }
    if !a.liquibase {
        push_task(&mut plan, brew_install("brew install liquibase", "liquibase"));
    }
    proof {
        assert(plan@.map_values(|x: Task| x@) =~= s0 + s1 + s2);
    }
    if !a.psql {
        push_task(&mut plan, brew_install("brew install postgresql", "postgresql@16"));
    }
    proof {
        assert(plan@.map_values(|x: Task| x@) =~= s0 + s1 + s2 + s3);
        assert(macos_package_plan(*a) == s0 + s1 + s2 + s3);
    }
    plan
}

/// The task list that installs cargo-nextest when it is missing.
pub fn nextest_install_plan(a: &ToolAvailability) -> (r: Vec<Task>)
    ensures
        r@.map_values(|x: Task| x@) == nextest_plan(*a),
{
    let mut plan: Vec<Task> = Vec::new();
    proof {
        assert(plan@.map_values(|x: Task| x@) =~= Seq::<TaskView>::empty());
    }
    if !a.nextest {
        let args = vec!["install".to_owned(), "cargo-nextest".to_owned(), "--locked".to_owned()];
        proof {
            assert(args.deep_view() =~= seq!["install"@, "cargo-nextest"@, "--locked"@]);
        }
        push_task(&mut plan, shell("install cargo-nextest", "cargo", args));
    }
    proof {
        assert(plan@.map_values(|x: Task| x@) =~= nextest_plan(*a));
    }
    plan
}

/// The task list that configures the podman user socket after podman was
/// just installed.
pub fn podman_socket_install_plan(a: &ToolAvailability) -> (r: Vec<Task>)
    ensures
        r@.map_values(|x: Task| x@) == podman_socket_plan(*a),
{
    let mut plan: Vec<Task> = Vec::new();
    proof {
        assert(plan@.map_values(|x: Task| x@) =~= Seq::<TaskView>::empty());
    }
    if !a.podman {
        let enable_args = vec!["--user".to_owned(), "enable".to_owned(), "podman.socket".to_owned()];
        proof {
            assert(enable_args.deep_view() =~= seq!["--user"@, "enable"@, "podman.socket"@]);
        }
        push_task(&mut plan, shell("enable podman socket", "systemctl", enable_args));
        let start_args = vec!["--user".to_owned(), "start".to_owned(), "podman.socket".to_owned()];
        proof {
            assert(start_args.deep_view() =~= seq!["--user"@, "start"@, "podman.socket"@]);
        }
        push_task(&mut plan, shell("start podman socket", "systemctl", start_args));
    }
    proof {
        assert(plan@.map_values(|x: Task| x@) =~= podman_socket_plan(*a));
    }
    plan
}

} // verus!
