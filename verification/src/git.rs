//! The calls of `git` that the commit flow makes: the arguments of each call,
//! and what is read out of what it prints.

pub mod commit;
pub mod diff;
pub mod log;
pub mod pull;
pub mod push;
pub mod status;
pub mod tag;
