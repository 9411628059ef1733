//! Environment bootstrap: validates a declarative setup configuration and
//! derives the ordered shell commands that bring a checkout up to date.
//!
//! Everything here is pure: running processes is left to the caller, which
//! reports each outcome back to the state machines of [`exec`] and [`session`].
pub mod mapping;
pub mod git;
pub mod exec;
pub mod probe;
pub mod toolchains;
pub mod python;
pub mod config;
pub mod session;
pub mod laws;
