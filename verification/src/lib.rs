//! A lightweight actor kernel: state owned by one process, reached only through
//! queued visitor operations, with supervision links between processes.

pub mod actor;
pub mod erl;
pub mod link;
pub mod next;
pub mod process;
pub mod reflection;
pub mod runtime;
pub mod stage;
pub mod supervision;
