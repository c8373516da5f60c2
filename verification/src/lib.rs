//! The decision core of a CoreMark benchmark harness for WebAssembly engines.
//!
//! The harness runs one fixed guest program under one of several engines and
//! reports its score. Everything that is decided rather than delegated lives
//! here: which engine a command line selects, which lines are printed around a
//! run, in which order an engine is set up and with which message a run stops
//! when a stage fails, and how a millisecond count becomes the 32-bit value
//! that the guest's clock import returns.

pub mod cli;
pub mod clock;
pub mod engine;
pub mod guest;
pub mod plan;
pub mod run;
