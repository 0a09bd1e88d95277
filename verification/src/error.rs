use vstd::prelude::*;

verus! {

/// Why a tablespace, a page or a record could not be decoded.
#[derive(Clone, Copy, Debug, PartialEq, Eq, Structural)]
pub enum DecodeError {
    /// The tablespace is too short to hold the page with this number.
    Io(u32),
    /// A structure does not have the size its layout fixes, or does not fit
    /// inside the bytes it is said to lie in.
    MalformedLength,
    /// A value outside the closed set the decoder knows, where the decoder
    /// cannot go on without knowing it.
    UnknownEnum,
    /// The dictionary information stored in the tablespace cannot be turned
    /// into a table description.
    SchemaBootstrap,
    /// An index page in the redundant row format.
    UnsupportedFormat,
}

impl DecodeError {
    /// A short text for the error, for messages.
    pub fn message(&self) -> (s: &'static str)
        ensures
            s@ == match *self {
                DecodeError::Io(_) => "page lies beyond the end of the tablespace"@,
                DecodeError::MalformedLength => "structure has the wrong length"@,
                DecodeError::UnknownEnum => "value outside the known set"@,
                DecodeError::SchemaBootstrap => "table description cannot be read"@,
                DecodeError::UnsupportedFormat => "redundant row format is not supported"@,
            },
    {
        match self {
            DecodeError::Io(_) => "page lies beyond the end of the tablespace",
            DecodeError::MalformedLength => "structure has the wrong length",
            DecodeError::UnknownEnum => "value outside the known set",
            DecodeError::SchemaBootstrap => "table description cannot be read",
            DecodeError::UnsupportedFormat => "redundant row format is not supported",
        }
    }
}

} // verus!
