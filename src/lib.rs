//! Scheduling core of a host runtime that embeds a single-threaded script
//! engine: the timer registry, the task queue, the dispatch decisions of the
//! run loop, and the lifecycle of the process-wide engine platform.

pub mod bridge;
pub mod cli;
pub mod console;
pub mod runtime;
pub mod task;
pub mod timers;
