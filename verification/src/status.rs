//! The result codes that a response carries.

use vstd::prelude::*;

verus! {

/// The result code of a response, two bytes on the wire.
#[derive(Debug, Clone, Copy, PartialEq, Eq, Structural)]
pub enum ResponseStatus {
    /// The operation succeeded.
    NoError,
    /// The key does not exist.
    KeyNotFound,
    /// The key exists already.
    KeyExists,
    /// The value is larger than the server accepts.
    ValueTooLarge,
    /// The request's arguments are not valid.
    InvalidArguements,
    /// The item was not stored.
    NotStored,
    /// Increment or decrement of a value that is no number.
    NonNumeric,
    /// The vbucket belongs to another server.
    WrongServer,
    /// Authentication failed.
    AuthenticationError,
    /// Authentication needs a further step.
    AuthenticationContinue,
    /// The server does not know the operation.
    UnknownCommand,
    /// The server is out of memory.
    OutOfMemory,
    /// The operation is not supported.
    NotSupported,
    /// The server failed internally.
    InternalError,
    /// The server is busy.
    Busy,
    /// The failure is temporary.
    TemporaryFailure,
}

impl ResponseStatus {
    /// The 16-bit code that stands for this status on the wire.
    pub open spec fn code(self) -> u16 {
        match self {
            ResponseStatus::NoError => 0x0000,
            ResponseStatus::KeyNotFound => 0x0001,
            ResponseStatus::KeyExists => 0x0002,
            ResponseStatus::ValueTooLarge => 0x0003,
            ResponseStatus::InvalidArguements => 0x0004,
            ResponseStatus::NotStored => 0x0005,
            ResponseStatus::NonNumeric => 0x0006,
            ResponseStatus::WrongServer => 0x0007,
            ResponseStatus::AuthenticationError => 0x0008,
            ResponseStatus::AuthenticationContinue => 0x0009,
            ResponseStatus::UnknownCommand => 0x0081,
            ResponseStatus::OutOfMemory => 0x0082,
            ResponseStatus::NotSupported => 0x0083,
            ResponseStatus::InternalError => 0x0084,
            ResponseStatus::Busy => 0x0085,
            ResponseStatus::TemporaryFailure => 0x0086,
        }
    }

    /// Whether `c` is one of the sixteen codes: `0x0000` to `0x0009` and
    /// `0x0081` to `0x0086`.
    pub open spec fn is_code(c: u16) -> bool {
        c <= 0x0009 || (0x0081 <= c && c <= 0x0086)
    }

    /// The status that `c` stands for, if any.
    pub open spec fn of_code(c: u16) -> Option<ResponseStatus> {
        if c == 0x0000 {
            Some(ResponseStatus::NoError)
        } else if c == 0x0001 {
            Some(ResponseStatus::KeyNotFound)
        } else if c == 0x0002 {
            Some(ResponseStatus::KeyExists)
        } else if c == 0x0003 {
            Some(ResponseStatus::ValueTooLarge)
        } else if c == 0x0004 {
            Some(ResponseStatus::InvalidArguements)
        } else if c == 0x0005 {
            Some(ResponseStatus::NotStored)
        } else if c == 0x0006 {
            Some(ResponseStatus::NonNumeric)
        } else if c == 0x0007 {
            Some(ResponseStatus::WrongServer)
        } else if c == 0x0008 {
            Some(ResponseStatus::AuthenticationError)
        } else if c == 0x0009 {
            Some(ResponseStatus::AuthenticationContinue)
        } else if c == 0x0081 {
            Some(ResponseStatus::UnknownCommand)
        } else if c == 0x0082 {
            Some(ResponseStatus::OutOfMemory)
        } else if c == 0x0083 {
            Some(ResponseStatus::NotSupported)
        } else if c == 0x0084 {
            Some(ResponseStatus::InternalError)
        } else if c == 0x0085 {
            Some(ResponseStatus::Busy)
        } else if c == 0x0086 {
            Some(ResponseStatus::TemporaryFailure)
        } else {
            None
        }
    }

    /// Every status has a code in the table, and reading that code gives the
    /// status back.
    pub proof fn lemma_code_round_trip(self)
        ensures
            ResponseStatus::is_code(self.code()),
            ResponseStatus::of_code(self.code()) == Some(self),
    {
    }

    /// A value is the code of at most one status, and exactly the values of
    /// the table are codes.
    pub proof fn lemma_of_code(c: u16)
        ensures
            ResponseStatus::of_code(c) is Some <==> ResponseStatus::is_code(c),
            ResponseStatus::of_code(c) is Some ==> ResponseStatus::of_code(c).unwrap().code() == c,
    {
    }

    /// The 16-bit code that stands for this status on the wire.
    pub fn to_u16(&self) -> (c: u16)
        ensures
            c == self.code(),
    {
        match self {
            ResponseStatus::NoError => 0x0000,
            ResponseStatus::KeyNotFound => 0x0001,
            ResponseStatus::KeyExists => 0x0002,
            ResponseStatus::ValueTooLarge => 0x0003,
            ResponseStatus::InvalidArguements => 0x0004,
            ResponseStatus::NotStored => 0x0005,
            ResponseStatus::NonNumeric => 0x0006,
            ResponseStatus::WrongServer => 0x0007,
            ResponseStatus::AuthenticationError => 0x0008,
            ResponseStatus::AuthenticationContinue => 0x0009,
            ResponseStatus::UnknownCommand => 0x0081,
            ResponseStatus::OutOfMemory => 0x0082,
            ResponseStatus::NotSupported => 0x0083,
            ResponseStatus::InternalError => 0x0084,
            ResponseStatus::Busy => 0x0085,
            ResponseStatus::TemporaryFailure => 0x0086,
        }
    }

    /// Reads a status from its code; `None` for a value that is no code.
    pub fn from_u16(c: u16) -> (r: Option<ResponseStatus>)
        ensures
            r == ResponseStatus::of_code(c),
            r is Some <==> ResponseStatus::is_code(c),
            r is Some ==> r.unwrap().code() == c,
    {
        match c {
            0x0000 => Some(ResponseStatus::NoError),
            0x0001 => Some(ResponseStatus::KeyNotFound),
            0x0002 => Some(ResponseStatus::KeyExists),
            0x0003 => Some(ResponseStatus::ValueTooLarge),
            0x0004 => Some(ResponseStatus::InvalidArguements),
            0x0005 => Some(ResponseStatus::NotStored),
            0x0006 => Some(ResponseStatus::NonNumeric),
            0x0007 => Some(ResponseStatus::WrongServer),
            0x0008 => Some(ResponseStatus::AuthenticationError),
            0x0009 => Some(ResponseStatus::AuthenticationContinue),
            0x0081 => Some(ResponseStatus::UnknownCommand),
            0x0082 => Some(ResponseStatus::OutOfMemory),
            0x0083 => Some(ResponseStatus::NotSupported),
            0x0084 => Some(ResponseStatus::InternalError),
            0x0085 => Some(ResponseStatus::Busy),
            0x0086 => Some(ResponseStatus::TemporaryFailure),
            _ => None,
        }
    }
}

} // verus!
