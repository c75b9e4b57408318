//! Failure classification for header reading and writing.

use vstd::prelude::*;

verus! {

/// What can go wrong while reading or writing a log header.
///
/// `ReadHeader` and `WriteHeader` classify faults of the byte source or
/// sink: a header field could not be read or written in full. They are
/// distinct from `InvalidMagic` and `InvalidVersion`, the terminal format
/// errors: the bytes were read, but they do not describe a log of this
/// format (wrong signature) or of a supported version. A caller can thereby
/// tell a possibly transient transport problem from a file that is
/// fundamentally not usable.
#[derive(Clone, Copy, Debug, PartialEq, Eq, Structural)]
pub enum Error {
    /// A header field could not be read: the source failed or ran dry
    /// before the field was complete.
    ReadHeader,
    /// A header field could not be written in full to the sink.
    WriteHeader,
    /// The source does not begin with the expected magic signature.
    InvalidMagic,
    /// The source carries the right signature but an unsupported format
    /// version.
    InvalidVersion,
}

} // verus!
