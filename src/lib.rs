//! A buffered, multi-sink logging backend.
//!
//! The library holds the decisions of the backend: severity filtering, the
//! layout of a record line, the capacity-bounded line buffer of a sink, the
//! switch between inline and background execution, and the message protocol
//! of a background worker. Opening streams, locking and threads are left to
//! the caller, which performs the effects that these functions hand back.

pub mod buffer;
pub mod clock;
pub mod level;
pub mod logger;
pub mod record;
pub mod writer;

pub use buffer::{LineBuffer, LINE_TERMINATOR};
pub use clock::{format_time_of_day, TimeOfDay};
pub use level::{Level, LevelFilter};
pub use logger::{LogError, Logger, Timestamps};
pub use record::{record_line, select_target};
pub use writer::{
    BufferedWriter, QueueMessage, SinkEffect, SinkState, StreamOps, Worker, WriteMode, WriteTarget,
    DEFAULT_BUFFER_CAPACITY,
};
