//! Structured access to MiniSEED waveform archives: decoded-record streams,
//! per-channel trace archives, typed sample segments and identity helpers.
//!
//! The byte-level decoder is a foreign library reached from the application
//! layer; this crate holds the decisions and the data model around it.

pub mod archive;
pub mod ident;
pub mod reader;
pub mod sample;
pub mod timeconv;

pub use archive::{MSTraceID, MSTraceList, MSTraceSegment};
pub use ident::{i8_to_string, Nslc};
pub use reader::{MSError, MSFileParam, MSRecord};
pub use sample::MSSampleType;
pub use timeconv::{nstime_to_time, CalendarParts};
