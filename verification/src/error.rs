//! Why a value of a response was refused.

use vstd::prelude::*;

verus! {

/// The reason a field of a response could not be decoded.
#[derive(Debug, Clone, Copy, PartialEq, Eq, Structural)]
pub enum DecodeError {
    /// The text is not an RFC 3339 date and time with a numeric offset.
    MalformedTimestamp,
    /// The instant lies outside the span that RFC 3339 text can denote.
    TimestampOutOfRange,
    /// The tag names no sky condition.
    UnknownCondition,
    /// The tag names no icon.
    UnknownIcon,
    /// The tag names no observation type.
    UnknownObservationType,
}

impl DecodeError {
    /// The diagnostic shown for this error.
    pub open spec fn message_text(self) -> Seq<char> {
        match self {
            DecodeError::MalformedTimestamp => "malformed timestamp"@,
            DecodeError::TimestampOutOfRange => "timestamp out of range"@,
            DecodeError::UnknownCondition => "unknown condition"@,
            DecodeError::UnknownIcon => "unknown icon"@,
            DecodeError::UnknownObservationType => "unknown observation type"@,
        }
    }

    /// Returns the diagnostic for this error.
    pub fn message(&self) -> (text: &'static str)
        ensures
            text@ == self.message_text(),
    {
        match self {
            DecodeError::MalformedTimestamp => "malformed timestamp",
            DecodeError::TimestampOutOfRange => "timestamp out of range",
            DecodeError::UnknownCondition => "unknown condition",
            DecodeError::UnknownIcon => "unknown icon",
            DecodeError::UnknownObservationType => "unknown observation type",
        }
    }
}

} // verus!
