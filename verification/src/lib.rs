use vstd::prelude::*;

pub mod base;
pub mod client;
pub mod terminal;
