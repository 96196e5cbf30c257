//! Lifecycle control and stack-trace aggregation for a sampling Ruby profiler.
//!
//! A [`Rbspy`] backend drives one sampling session of the `rbspy` sampler
//! through the states uninitialized, ready and running, and folds the stack
//! traces that the sampler queued into a collapsed-stack report: one line
//! `frame;frame;...;frame count` for each distinct call stack.
pub mod backend;
pub mod config;
pub mod error;
pub mod formatter;
pub mod frame;
pub mod sampler;
pub mod types;
pub mod writer;

pub use crate::backend::{deadline_fits_at, queue_size, render_report, traces_from_sampled, Rbspy};
pub use crate::config::RbspyConfig;
pub use crate::error::{BackendError, ErrorKind};
pub use crate::formatter::RbspyFormatter;
pub use crate::frame::{push_decimal, SampledFrame, StackFrame, StackFrameFormatter, StackTrace};
pub use crate::sampler::START_SLACK_SECS;
pub use crate::types::{Backend, Operation, State};
pub use crate::writer::RbspyWriter;
