//! A minimal ptrace debugger core: one software breakpoint, a phase-tagged
//! session and the decisions that drive a traced child process.
//!
//! The library performs no process control itself. Its session machine
//! answers each observation of the child with the next operation to perform,
//! and its contracts state exactly which memory words, program counters and
//! process-control requests it asks for.
pub mod patch;
pub mod command;
pub mod dbg;
pub mod lemmas;
