//! Descriptions of types as values: what a type is called, where it lives, and
//! what it is made of.

pub mod counter;
pub mod info;
pub mod object;
pub mod typed;
