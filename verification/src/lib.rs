//! Executor-independent progress reporting: the decision logic behind yielding,
//! labelling portions of work and combining the progress of concurrent subtasks.

pub mod basic_yield;
pub mod concurrent;
pub mod label;

pub use basic_yield::{basic_yield_now, BasicYieldNow, PollStep, State};
pub use concurrent::ConcurrentProgress;
pub use label::{label_text, PortionLabel};
pub mod hiccup;

pub use hiccup::{check_yield, classify_hiccup, finish_yield, Hiccup, YieldRecord};
