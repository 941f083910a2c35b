//! The single error kind raised when a token is not a boolean representation.
use vstd::prelude::*;

verus! {

/// The category of a conversion failure.
#[derive(Debug, Clone, Copy, PartialEq, Eq, Structural)]
pub enum ErrorKind {
    /// The input matches neither configured token.
    InvalidInput,
}

/// Why a token could not be read as a boolean.
#[derive(Debug, Clone, Copy, PartialEq, Eq, Structural)]
pub enum ConvertError {
    /// The byte or byte string equals neither the true nor the false token.
    InvalidRepresentation,
    /// The character does not fit in a single byte.
    InvalidChar(char),
}

/// The fixed part of every error message.
pub open spec fn base_message() -> Seq<char> {
    "Invalid boolean representation"@
}

/// The message for a character that cannot be narrowed to one byte.
pub open spec fn invalid_char_message(c: char) -> Seq<char> {
    base_message() + ": "@ + seq![c]
}

/// Relies on `format!` with `char`'s `Display`, which writes the character itself.
#[verifier::external_body]
fn format_invalid_char(c: char) -> (s: String)
    ensures
        s@ == invalid_char_message(c),
{
    format!("Invalid boolean representation: {}", c)
}

impl ConvertError {
    /// The human-readable text of this error.
    pub open spec fn spec_message(self) -> Seq<char> {
        match self {
            ConvertError::InvalidRepresentation => base_message(),
            ConvertError::InvalidChar(c) => invalid_char_message(c),
        }
    }

    /// Every conversion error is of kind `InvalidInput`.
    pub fn kind(&self) -> (k: ErrorKind)
        ensures
            k == ErrorKind::InvalidInput,
    {
        ErrorKind::InvalidInput
    }

    /// The human-readable text of this error.
    pub fn message(&self) -> (s: String)
        ensures
            s@ == self.spec_message(),
    {
        match self {
            ConvertError::InvalidRepresentation => "Invalid boolean representation".to_owned(),
            ConvertError::InvalidChar(c) => format_invalid_char(*c),
        }
    }
}

} // verus!
