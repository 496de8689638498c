//! The one way in which a call into this crate can fail: the caller handed
//! in an argument that the operation cannot accept.

use vstd::prelude::*;

verus! {

/// An argument was refused. Each variant names the demand that it broke.
#[derive(Clone, Copy, Debug, PartialEq, Eq, Structural)]
pub enum InvalidInput {
    /// The source holds more bytes than the destination has room for.
    SourceTooLarge,
    /// A buffer of zero bytes was asked for.
    SizeNotPositive,
    /// The buffer asked for would hold more bytes than a single buffer can.
    SizeTooLarge,
}

impl InvalidInput {
    /// The text of `message`, as a sequence of characters.
    pub open spec fn message_text(self) -> Seq<char> {
        match self {
            InvalidInput::SourceTooLarge => "source too large for destination"@,
            InvalidInput::SizeNotPositive => "size must be positive"@,
            InvalidInput::SizeTooLarge => "size too large, potential overflow"@,
        }
    }

    /// A short description of the refusal, fit to be shown to a user.
    pub fn message(&self) -> (text: &'static str)
        ensures
            text@ == self.message_text(),
    {
        match self {
            InvalidInput::SourceTooLarge => "source too large for destination",
            InvalidInput::SizeNotPositive => "size must be positive",
            InvalidInput::SizeTooLarge => "size too large, potential overflow",
        }
    }
}

} // verus!
