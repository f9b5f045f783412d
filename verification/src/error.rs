//! The failures a buffer operation can report.

use vstd::prelude::*;

verus! {

/// Why a buffer operation was refused. Every failure is detected before the
/// backing store is touched, so a refused operation changes nothing.
#[derive(Clone, Copy, Debug, PartialEq, Eq, Structural)]
pub enum BufferError {
    /// A write position lies beyond the capacity.
    OutOfBounds,
    /// A write would run past the fixed capacity.
    CapacityExceeded,
    /// A range whose start exceeds its end, or whose end exceeds the capacity.
    InvalidRange,
    /// The requested bytes are not valid UTF-8.
    InvalidEncoding,
    /// The buffer has no backing store to operate on.
    Unimplemented,
}

impl BufferError {
    /// The text of `message`, variant by variant.
    pub open spec fn message_text(self) -> Seq<char> {
        match self {
            BufferError::OutOfBounds => "Position out of bounds"@,
            BufferError::CapacityExceeded => "Not enough space"@,
            BufferError::InvalidRange => "Invalid range"@,
            BufferError::InvalidEncoding => "Invalid UTF-8"@,
            BufferError::Unimplemented => "Not implemented"@,
        }
    }

    /// A short description for the user.
    pub fn message(&self) -> (text: &'static str)
        ensures
            text@ == self.message_text(),
    {
        match self {
            BufferError::OutOfBounds => "Position out of bounds",
            BufferError::CapacityExceeded => "Not enough space",
            BufferError::InvalidRange => "Invalid range",
            BufferError::InvalidEncoding => "Invalid UTF-8",
            BufferError::Unimplemented => "Not implemented",
        }
    }
}

} // verus!
