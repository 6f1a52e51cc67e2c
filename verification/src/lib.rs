//! Engine of a minimal interactive debugger for one traced child process.
//!
//! The engine decides; it makes no system call. A command line goes to the
//! debugger in its present state ([`dbg`]). The answer is a [`task::Turn`]:
//! a notice for the user, if any, and either the state in which the command
//! ends or a request to the platform ([`host`]) together with the task to
//! resume with the platform's answer. [`model`] and [`laws`] state what this
//! protocol guarantees: where the trap is and where it is not, which
//! commands are refused, and that every command but `exit` comes to its end.

pub mod address;
pub mod breakpoint;
pub mod command;
pub mod dbg;
pub mod host;
pub mod laws;
pub mod model;
pub mod registers;
pub mod report;
pub mod task;
