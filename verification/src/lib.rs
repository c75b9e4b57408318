//! Index and header layer of a fixed-capacity circular log.
//!
//! A log stores an ever-growing sequence of entries in a bounded number of
//! physical slots: once the capacity is reached, storage wraps around and the
//! oldest slots are reused. [`LogIndex`] translates an unbounded logical
//! position into the bounded physical slot that holds it. [`Header`] is the
//! fixed-size binary descriptor written at the start of a log file: the log's
//! capacity and the logical bounds of the live data, guarded by a magic
//! number and a format version.

pub mod codec;
pub mod error;
pub mod header;
pub mod index;

pub use error::Error;
pub use header::Header;
pub use index::LogIndex;
