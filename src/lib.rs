//! A multi-sink logging dispatcher for desktop applications.
//!
//! The library decides: which records pass the severity filter, how a record is
//! rendered, which sinks receive it and in what order, and what happens to an
//! oversized log file when a file sink is opened. The embedding host performs
//! the resulting writes, renames and UI events.
pub mod level;
pub mod timestamp;
pub mod format;
pub mod rotation;
pub mod logger;
pub mod config;

pub use level::LogLevel;
pub use timestamp::Timestamp;
pub use config::ConfigError;
pub use format::LogRecord;
pub use logger::{Content, Delivery, LineFormat, LogTarget, Logger, LoggerBuilder, RecordPayload, Sink};
pub use rotation::{RotationAction, RotationStrategy};
