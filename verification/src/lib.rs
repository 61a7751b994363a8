//! Supervision of a reverse tunnel: a remote session, a port forward through
//! it, and a local file server behind the forward.
//!
//! The crate holds the decisions only. A driver performs the outside work
//! (processes, the network, prompts) and reports each result as an event;
//! the orchestrator answers with the step to take next.
//!
//! - [`orchestrator`]: the orchestrator of one tunnel, from setup to release.
//! - [`machine`]: its state machine, as a function from state and event to
//!   state and action.
//! - [`traces`]: what holds of every run of the machine.
//! - [`config`]: the configuration and the rules that a valid one obeys.
//! - [`wizard`]: the configuration that the setup assistant's answers make.
//! - [`runner`]: the commands that run before the session is opened.
//! - [`supervisor`]: the served process.
//! - [`digest`]: password digests.
//! - [`text`]: splitting text and writing numbers.

pub mod config;
pub mod digest;
pub mod machine;
pub mod orchestrator;
pub mod runner;
mod signal;
pub mod supervisor;
pub mod text;
pub mod traces;
pub mod wizard;
