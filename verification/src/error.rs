//! The ways in which a transfer fails.

use vstd::prelude::*;

verus! {

/// A failure that ends a transfer. None of them is retried.
#[derive(Clone, Copy, Debug, PartialEq, Eq, Structural)]
pub enum PipeError {
    /// Reading from the input stream failed.
    ReadFailed,
    /// Writing to the output stream failed.
    WriteFailed,
    /// A block was offered to a queue that takes no more blocks.
    SendFailed,
}

/// The text that describes `error`.
pub open spec fn describe_text(error: PipeError) -> Seq<char> {
    match error {
        PipeError::ReadFailed => "reading from the input stream failed"@,
        PipeError::WriteFailed => "writing to the output stream failed"@,
        PipeError::SendFailed => "sending on a closed queue"@,
    }
}

impl PipeError {
    /// A short description for diagnostics.
    pub fn describe(&self) -> (text: &'static str)
        ensures
            text@ == describe_text(*self),
    {
        match self {
            PipeError::ReadFailed => "reading from the input stream failed",
            PipeError::WriteFailed => "writing to the output stream failed",
            PipeError::SendFailed => "sending on a closed queue",
        }
    }
}

} // verus!
