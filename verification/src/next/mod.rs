//! Processes defined by a type: the definition is turned into a body once,
//! when the process is started.

pub mod fsm;
pub mod proc;
