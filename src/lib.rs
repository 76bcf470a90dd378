//! Decisions of an instrumented (profile-generating) cargo build: the
//! invocation to run, how each build event is reported, and the outcome.
pub mod args;
pub mod command;
pub mod event;
pub mod instrument;
pub mod report;
