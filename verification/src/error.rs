use vstd::prelude::*;

verus! {

/// The ways in which an operation of this library can fail. Every failure is
/// handed back to the caller as a value; none ends the process.
#[derive(Clone, Copy, Debug, PartialEq, Eq, Structural)]
pub enum Error {
    /// The underlying read failed, delivered the wrong number of bytes, or a
    /// range request lay outside the container.
    Io,
    /// The decoder rejected the container, or a chunk failed in mid stream.
    Decode,
    /// A scalar has a type for which no host value is defined.
    UnsupportedType,
    /// A row index at or past the end of the array.
    Bounds,
    /// A stream delivered no data without reporting that it has ended.
    ProtocolViolation,
}

impl Error {
    /// A short text for diagnostics, one per kind.
    pub fn message(&self) -> (text: &'static str)
        ensures
            text@ == error_text(*self),
    {
        match self {
            Error::Io => "i/o error",
            Error::Decode => "decode error",
            Error::UnsupportedType => "unsupported type",
            Error::Bounds => "index out of bounds",
            Error::ProtocolViolation => "protocol violation",
        }
    }
}

/// The text that stands for each kind of failure.
pub open spec fn error_text(e: Error) -> Seq<char> {
    match e {
        Error::Io => "i/o error"@,
        Error::Decode => "decode error"@,
        Error::UnsupportedType => "unsupported type"@,
        Error::Bounds => "index out of bounds"@,
        Error::ProtocolViolation => "protocol violation"@,
    }
}

} // verus!
