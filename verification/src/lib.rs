//! Build and development automation library: a verified task-execution
//! primitive (define an external-process invocation, run it, fold its exit
//! status into a uniform outcome), precondition checks for commands and
//! directories, configuration handling, and the command-line plans that the
//! surrounding tool runs through the primitive.

pub mod config;
pub mod task;
pub mod tasks;
pub mod text;
