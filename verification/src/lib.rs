//! A glog-inspired line formatter for structured log events.
//!
//! Every event becomes one line of text:
//!
//! ```text
//! I0102 03:04:05.000006 4242 main [server] server/listen.rs:17] [request{id: 7}] ready, attempts: 2
//! ```
//!
//! The line is made of a header (severity, time stamp, process id, the
//! thread name and the target in brackets where they are asked for, source
//! location), the chain of the active spans from the outermost to the
//! innermost where there is one, and the event's own fields.
//! All rendering goes into a [`Sink`]; every function states the exact text
//! that it appends.
//!
//! Two things are taken on trust. The clock is read through the `time`
//! crate; of a reading only the ranges of its fields are believed. A text
//! value is quoted by the standard library's debug formatting; its result
//! goes by the name [`fields::debug_quoted`] and nothing is claimed of it.
pub mod event;
pub mod fields;
pub mod glog;
pub mod level;
pub mod path;
pub mod sink;
pub mod span;
pub mod style;
pub mod text;
pub mod time;

pub use event::{ErrorValue, Event, Field, ProcessData, Value};
pub use fields::{GlogFields, GlogVisitor};
pub use glog::{Glog, GlogView};
pub use level::Level;
pub use sink::{FormatError, Sink, SinkView};
pub use span::{ContextChain, SpanFrame};
pub use style::Style;
pub use time::{Timer, Timestamp};
