use vstd::prelude::*;

verus! {

/// The ways a single poll of one server can fail, spanning the transport,
/// framing, and payload layers of the status protocol.
#[derive(Clone, Copy, Debug, PartialEq, Eq, Structural)]
pub enum ResponseError {
    /// The connection delivered fewer bytes than the frame requires.
    Truncated,
    /// The first two bytes of the response were not the status header.
    InvalidHeader,
    /// The frame type byte was not the status type.
    InvalidType,
    /// The closing byte of the frame was not zero.
    InvalidFooter,
    /// The announced frame length cannot cover its own two bytes.
    InvalidLength,
    /// The payload was not valid UTF-8 text.
    InvalidUtf8,
    /// The payload was not a JSON object of scalar members.
    MalformedPayload,
    /// A required field of the record was absent.
    MissingField,
    /// A field of the record appeared more than once.
    DuplicateField,
    /// A field held a value of the wrong JSON type.
    WrongType,
    /// A boolean-coded field held a number other than zero or one.
    InvalidBool,
    /// An integer field exceeded its range.
    NumberOutOfRange,
}

/// The error taxonomy of the protocol: transport failures, structurally
/// malformed framing, and schema-level decode failures.
#[derive(Clone, Copy, Debug, PartialEq, Eq, Structural)]
pub enum ErrorClass {
    Transport,
    ProtocolMismatch,
    Decode,
}

impl ResponseError {
    /// The class of the taxonomy this failure belongs to.
    pub open spec fn class_spec(self) -> ErrorClass {
        match self {
            ResponseError::Truncated => ErrorClass::Transport,
            ResponseError::InvalidHeader => ErrorClass::ProtocolMismatch,
            ResponseError::InvalidType => ErrorClass::ProtocolMismatch,
            ResponseError::InvalidFooter => ErrorClass::ProtocolMismatch,
            ResponseError::InvalidLength => ErrorClass::ProtocolMismatch,
            ResponseError::InvalidUtf8 => ErrorClass::ProtocolMismatch,
            ResponseError::MalformedPayload => ErrorClass::Decode,
            ResponseError::MissingField => ErrorClass::Decode,
            ResponseError::DuplicateField => ErrorClass::Decode,
            ResponseError::WrongType => ErrorClass::Decode,
            ResponseError::InvalidBool => ErrorClass::Decode,
            ResponseError::NumberOutOfRange => ErrorClass::Decode,
        }
    }

    /// Reports which class of the taxonomy this failure belongs to.
    pub fn class(&self) -> (c: ErrorClass)
        ensures
            c == self.class_spec(),
    {
        match self {
            ResponseError::Truncated => ErrorClass::Transport,
            ResponseError::InvalidHeader => ErrorClass::ProtocolMismatch,
            ResponseError::InvalidType => ErrorClass::ProtocolMismatch,
            ResponseError::InvalidFooter => ErrorClass::ProtocolMismatch,
            ResponseError::InvalidLength => ErrorClass::ProtocolMismatch,
            ResponseError::InvalidUtf8 => ErrorClass::ProtocolMismatch,
            ResponseError::MalformedPayload => ErrorClass::Decode,
            ResponseError::MissingField => ErrorClass::Decode,
            ResponseError::DuplicateField => ErrorClass::Decode,
            ResponseError::WrongType => ErrorClass::Decode,
            ResponseError::InvalidBool => ErrorClass::Decode,
            ResponseError::NumberOutOfRange => ErrorClass::Decode,
        }
    }
}

} // verus!
