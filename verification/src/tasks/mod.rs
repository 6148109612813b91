//! The command plans: for each developer-workflow command, the decisions and
//! task lists it is made of, verified against exact contracts. The thin
//! surrounding binary performs the filesystem and environment probes and
//! feeds their results to these functions.

pub mod certs;
pub mod compile;
pub mod compose;
pub mod doc;
pub mod get_tools;
pub mod install;
pub mod migrate;
pub mod test;
