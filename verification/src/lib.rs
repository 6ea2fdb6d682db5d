//! Asynchronous GELF log-shipping core.
//!
//! Application threads hand log records to a batch processor, which enqueues
//! them on a bounded channel. A single background dispatcher owns a batch
//! buffer: it accumulates records, flushes them when a size or age limit is
//! reached (or on an explicit flush request), and keeps them buffered across
//! transient delivery failures. Records are framed as newline-terminated
//! payloads, with an optional trailing NUL byte per record.

pub mod batch;
pub mod buffer;
pub mod channel;
pub mod config;
pub mod level;
pub mod output;
pub mod record;
pub mod result;

pub use batch::{flush, Batch, BatchProcessor, NoProcessor};
pub use buffer::{Action, Buffer, Event};
pub use config::{Config, ConfigBuilder, FullBufferPolicy};
pub use level::GelfLevel;
pub use record::GelfRecord;
pub use result::Error;
