//! The task-execution primitive: a [`Task`] describes one external-process
//! invocation (executable, arguments, optional working directory, extra
//! environment entries); [`Task::execute`] runs it and folds the exit status
//! into a uniform success/failure outcome. [`run_tasks`] runs a list of tasks
//! in order, stopping at the first failure. [`command_exists`] and
//! [`verify_directory`] are the precondition gates used before tasks are
//! built.

use vstd::prelude::*;

use crate::text::{join_with_spaces, joined_with_spaces};
use std::io::Write;

verus! {

/// Specification-level image of a [`Task`]: every field as a mathematical
/// value.
#[verifier::ext_equal]
pub ghost struct TaskView {
    pub name: Seq<char>,
    pub command: Seq<char>,
    pub args: Seq<Seq<char>>,
    pub working_dir: Option<Seq<char>>,
    pub env_vars: Seq<(Seq<char>, Seq<char>)>,
}

/// One external-process invocation, fully specified before execution begins.
///
/// The executable is invoked directly (no shell), with the arguments passed
/// verbatim and in order, the working directory overriding the caller's
/// current directory only for the child, and the environment entries merged
/// on top of the inherited environment.
pub struct Task {
    name: String,
    command: String,
    args: Vec<String>,
    working_dir: Option<String>,
    env_vars: Vec<(String, String)>,
}

impl View for Task {
    type V = TaskView;

    closed spec fn view(&self) -> TaskView {
        TaskView {
            name: self.name@,
            command: self.command@,
            args: self.args.deep_view(),
            working_dir: self.working_dir.deep_view(),
            env_vars: self.env_vars.deep_view(),
        }
    }
}

impl Task {
    /// Create a new task with a display name and the executable to invoke,
    /// no arguments, no working-directory override and no extra environment.
    pub fn new(name: &str, command: &str) -> (t: Task)
        ensures
            t@.name == name@,
            t@.command == command@,
            t@.args =~= Seq::<Seq<char>>::empty(),
            t@.working_dir is None,
            t@.env_vars =~= Seq::<(Seq<char>, Seq<char>)>::empty(),
    {
        Task {
            name: name.to_owned(),
            command: command.to_owned(),
            args: Vec::new(),
            working_dir: None,
            env_vars: Vec::new(),
        }
    }

    /// Replace the task's argument list.
    pub fn args(self, args: Vec<String>) -> (t: Task)
        ensures
            t@.name == self@.name,
            t@.command == self@.command,
            t@.args == args.deep_view(),
            t@.working_dir == self@.working_dir,
            t@.env_vars == self@.env_vars,
    {
        Task { args, ..self }
    }

    /// Set the working directory the child process runs in.
    pub fn working_dir(self, dir: &str) -> (t: Task)
        ensures
            t@.name == self@.name,
            t@.command == self@.command,
            t@.args == self@.args,
            t@.working_dir == Some(dir@),
            t@.env_vars == self@.env_vars,
    {
        Task { working_dir: Some(dir.to_owned()), ..self }
    }

    /// Add one environment entry for the child process. Entries are applied
    /// in order, so a later entry for the same key overwrites an earlier
    /// one.
    pub fn env(self, key: &str, value: &str) -> (t: Task)
        ensures
            t@.name == self@.name,
            t@.command == self@.command,
            t@.args == self@.args,
            t@.working_dir == self@.working_dir,
            t@.env_vars == self@.env_vars.push((key@, value@)),
    {
        let mut env_vars = self.env_vars;
        env_vars.push((key.to_owned(), value.to_owned()));
        proof {
            assert(env_vars.deep_view() =~= self@.env_vars.push((key@, value@)));
        }
        Task { env_vars, ..self }
    }

    /// The task's display name.
    pub fn name(&self) -> (r: &String)
        ensures
            r@ == self@.name,
    {
        &self.name
    }

    /// The executable the task invokes.
    pub fn command(&self) -> (r: &String)
        ensures
            r@ == self@.command,
    {
        &self.command
    }

    /// The arguments, in the order they are passed.
    pub fn arguments(&self) -> (r: &Vec<String>)
        ensures
            r.deep_view() == self@.args,
    {
        &self.args
    }

    /// The working-directory override, when one is set.
    pub fn working_directory(&self) -> (r: &Option<String>)
        ensures
            r.deep_view() == self@.working_dir,
    {
        &self.working_dir
    }

    /// The extra environment entries, in the order they were added.
    pub fn env_entries(&self) -> (r: &Vec<(String, String)>)
        ensures
            r.deep_view() == self@.env_vars,
    {
        &self.env_vars
    }

    /// The full command line of the task: the executable followed by the
    /// arguments, separated by single spaces.
    pub fn command_line(&self) -> (r: String)
        ensures
            r@ == self@.command + seq![' '] + joined_with_spaces(self@.args),
    {
        let mut out = self.command.clone();
        out.append(" ");
        let joined = join_with_spaces(&self.args);
        out.append(joined.as_str());
        proof {
            reveal_strlit(" ");
        }
        out
    }

    /// Run the task: announce it, spawn the executable, wait for
    /// termination, and fold the exit status into an outcome. A process
    /// that cannot be spawned is a [`TaskError::Spawn`]; a non-zero exit
    /// code (or termination by a signal, reported as the sentinel code -1)
    /// is a [`TaskError::Exit`] carrying the display name and the code.
    pub fn execute(&self) -> (r: Result<(), TaskError>)
        ensures
            r matches Err(e) ==> error_from(e, self@),
    {
        let mut announce = String::from_str("Running: ");
        announce.append(self.name.as_str());
        print_line(announce.as_str());
        let mut line = String::from_str("Command: ");
        let cmdline = self.command_line();
        line.append(cmdline.as_str());
        print_line(line.as_str());
        match &self.working_dir {
            Some(dir) => {
                let mut wd = String::from_str("Working directory: ");
                wd.append(dir.as_str());
                print_line(wd.as_str());
            },
            None => {},
        }
        match spawn_and_wait(&self.command, &self.args, &self.working_dir, &self.env_vars) {
            Err(_) => Err(
                TaskError::Spawn { name: self.name.clone(), command: self.command.clone() },
            ),
            Ok(code) => {
                let outcome = status_outcome(self.name.as_str(), code);
                if outcome.is_ok() {
                    let mut done = self.name.clone();
                    done.append(": completed successfully");
                    print_line(done.as_str());
                }
                outcome
            },
        }
    }
}

/// Why a task failed: the process could not be spawned at all, or it ran
/// and terminated unsuccessfully.
#[derive(Debug)]
pub enum TaskError {
    /// The executable could not be spawned (not found, not invocable).
    /// No output was relayed; the child never ran.
    Spawn { name: String, command: String },
    /// The process ran and exited with a non-zero code, or was terminated
    /// by a signal (reported as the sentinel code -1).
    Exit { name: String, code: i32 },
}

/// The task `t` is exactly the given invocation: every field pinned.
pub open spec fn task_is(
    t: TaskView,
    name: Seq<char>,
    command: Seq<char>,
    args: Seq<Seq<char>>,
    working_dir: Option<Seq<char>>,
    env_vars: Seq<(Seq<char>, Seq<char>)>,
) -> bool {
    t.name == name && t.command == command && t.args == args && t.working_dir == working_dir
        && t.env_vars == env_vars
}

/// An empty set of extra environment entries.
pub open spec fn no_env() -> Seq<(Seq<char>, Seq<char>)> {
    Seq::empty()
}

/// The error `e` is one that executing a task with view `t` may report: it
/// carries that task's display name, and a reported exit code is never zero.
pub open spec fn error_from(e: TaskError, t: TaskView) -> bool {
    match e {
        TaskError::Spawn { name, command } => name@ == t.name && command@ == t.command,
        TaskError::Exit { name, code } => name@ == t.name && code != 0,
    }
}

/// Fold a process termination status into the task outcome: exit code zero
/// is success; a non-zero code is a failure carrying the display name and
/// that exact code; termination without a code (a signal) is a failure
/// carrying the sentinel code -1.
pub fn status_outcome(name: &str, code: Option<i32>) -> (r: Result<(), TaskError>)
    ensures
        (r is Ok) <==> code == Some(0i32),
        (r matches Err(e) ==> e matches TaskError::Exit { name: n, code: c } && n@ == name@ && c
            == exit_sentinel(code)),
{
    match code {
        Some(c) => {
            if c == 0 {
                Ok(())
            } else {
                Err(TaskError::Exit { name: name.to_owned(), code: c })
            }
        },
        None => Err(TaskError::Exit { name: name.to_owned(), code: -1 }),
    }
}

/// The exit code a failure reports for a given termination status: the code
/// itself when the process exited with one, the sentinel -1 when it was
/// terminated by a signal.
pub open spec fn exit_sentinel(code: Option<i32>) -> i32 {
    match code {
        Some(c) => c,
        None => -1i32,
    }
}

/// Run the tasks in order, one at a time. Stops at the first failure and
/// returns it without executing the remaining tasks; returns success when
/// every task succeeded.
pub fn run_tasks(tasks: Vec<Task>) -> (r: Result<(), TaskError>)
    ensures
        r matches Err(e) ==> exists|i: int|
            0 <= i < tasks@.len() && error_from(e, #[trigger] tasks@[i]@),
{
    let mut idx: usize = 0;
    while idx < tasks.len()
        invariant
            idx <= tasks.len(),
        decreases tasks.len() - idx,
    {
        let outcome = tasks[idx].execute();
        match outcome {
            Ok(()) => {},
            Err(e) => {
                proof {
                    assert(error_from(e, tasks@[idx as int]@));
                }
                return Err(e);
            },
        }
        idx = idx + 1;
    }
    Ok(())
}

/// Whether a path points at an existing directory, and if not, why: the
/// probed facts are folded into the same error the directory check reports.
pub fn classify_path(path: &str, exists: bool, is_dir: bool) -> (r: Result<(), DirError>)
    ensures
        (r is Ok) <==> (exists && is_dir),
        !exists ==> (r matches Err(DirError::Missing { path: p }) && p@ == path@),
        exists && !is_dir ==> (r matches Err(DirError::NotADirectory { path: p }) && p@ == path@),
{
    if !exists {
        Err(DirError::Missing { path: path.to_owned() })
    } else if !is_dir {
        Err(DirError::NotADirectory { path: path.to_owned() })
    } else {
        Ok(())
    }
}

/// Why a directory check failed: the path names nothing, or it names
/// something that is not a directory. Either way the error carries the
/// offending path.
#[derive(Debug)]
pub enum DirError {
    Missing { path: String },
    NotADirectory { path: String },
}

/// Verify that `path` exists and is a directory: the precondition gate used
/// before a task is given a working directory. Succeeds exactly when the
/// filesystem probes find an existing directory; the two failure causes are
/// reported as distinct errors, each carrying the path.
pub fn verify_directory(path: &str) -> (r: Result<(), DirError>)
    ensures
        r matches Err(DirError::Missing { path: p }) ==> p@ == path@,
        r matches Err(DirError::NotADirectory { path: p }) ==> p@ == path@,
{
    let exists = path_exists(path);
    let is_dir = path_is_dir(path);
    classify_path(path, exists, is_dir)
}

/// Check whether a named executable is resolvable on the system search
/// path. Collapses every lookup error to `false` and never fails.
///
/// Relies on tokio::process::Command: runs `which <command>` with its output
/// captured and reports whether the lookup exited successfully.
#[verifier::external_body]
pub fn command_exists(command: &str) -> (r: bool) {
    let rt = match tokio::runtime::Runtime::new() {
        Ok(rt) => rt,
        Err(_) => return false,
    };
    let mut cmd = tokio::process::Command::new("which");
    cmd.arg(command);
    let lookup = {
        let _guard = rt.enter();
        cmd.output()
    };
    match rt.block_on(lookup) {
        Ok(output) => output.status.success(),
        Err(_) => false,
    }
}

/// Relies on tokio::process::Command: spawns the executable directly (no
/// shell) with the given arguments, the extra environment entries merged on
/// top of the inherited environment, and the optional working directory;
/// the child writes to the parent's own standard streams as it runs. Waits
/// for termination and returns the exit code, `Ok(None)` when the process
/// was terminated by a signal, or `Err(())` when it could not be spawned
/// (in which case the child never ran).
#[verifier::external_body]
fn spawn_and_wait(
    command: &String,
    args: &Vec<String>,
    working_dir: &Option<String>,
    env_vars: &Vec<(String, String)>,
) -> (r: Result<Option<i32>, ()>) {
    let rt = tokio::runtime::Runtime::new().map_err(|_| ())?;
    let mut cmd = tokio::process::Command::new(command);
    cmd.args(args);
    cmd.envs(env_vars.clone());
    if let Some(dir) = working_dir {
        cmd.current_dir(dir);
    }
    let spawned = {
        let _guard = rt.enter();
        cmd.spawn()
    };
    let mut child = spawned.map_err(|_| ())?;
    let status = rt.block_on(child.wait()).map_err(|_| ())?;
    Ok(status.code())
}

/// Relies on std::io::Stdout: writes one line to the parent process's
/// standard output.
#[verifier::external_body]
fn print_line(s: &str) {
    let _ = writeln!(std::io::stdout(), "{}", s);
}

/// Relies on std::path::Path::exists: whether the path points at an
/// existing filesystem entity at the moment of the probe.
#[verifier::external_body]
fn path_exists(path: &str) -> (r: bool) {
    std::path::Path::new(path).exists()
}

/// Relies on std::path::Path::is_dir: whether the path points at an
/// existing directory at the moment of the probe.
#[verifier::external_body]
fn path_is_dir(path: &str) -> (r: bool) {
    std::path::Path::new(path).is_dir()
}

} // verus!
