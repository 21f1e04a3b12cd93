//! Building blocks named after their counterparts in Erlang/OTP.

pub mod atom;
pub mod mailbox;
pub mod process;
