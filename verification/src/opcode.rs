//! The operations of the protocol and their one-byte codes.

use vstd::prelude::*;

verus! {

/// The operation that a packet asks for or answers.
#[derive(Debug, Clone, Copy, PartialEq, Eq, Structural)]
pub enum Opcode {
    /// Fetch the value of a key.
    Get,
    /// The `set` operation: store a value, whether or not the key exists.
    Store,
    /// Store a value only if the key does not exist.
    Add,
    /// Store a value only if the key exists.
    Replace,
    /// Remove a key.
    Delete,
    /// Add to a numeric value.
    Increment,
    /// Subtract from a numeric value.
    Decrement,
    /// Close the connection.
    Quit,
    /// Invalidate every item.
    Flush,
    /// Quiet `Get`: a miss is not answered.
    GetQ,
    /// Do nothing; flushes pending quiet answers.
    Noop,
    /// Ask for the server's version.
    Version,
    /// `Get` whose answer carries the key.
    GetK,
    /// Quiet `GetK`.
    GetKQ,
    /// Append to an existing value.
    Append,
    /// Prepend to an existing value.
    Prepend,
    /// Ask for statistics.
    Stat,
    /// Quiet `set`.
    SetQ,
    /// Quiet `Add`.
    AddQ,
    /// Quiet `Replace`.
    ReplaceQ,
    /// Quiet `Delete`.
    DeleteQ,
    /// Quiet `Increment`.
    IncrementQ,
    /// Quiet `Decrement`.
    DecrementQ,
    /// Quiet `Quit`.
    QuitQ,
    /// Quiet `Flush`.
    FlushQ,
    /// Quiet `Append`.
    AppendQ,
    /// Quiet `Prepend`.
    PrependQ,
}

impl Opcode {
    /// The byte that stands for this operation on the wire.
    pub open spec fn byte(self) -> u8 {
        match self {
            Opcode::Get => 0x00,
            Opcode::Store => 0x01,
            Opcode::Add => 0x02,
            Opcode::Replace => 0x03,
            Opcode::Delete => 0x04,
            Opcode::Increment => 0x05,
            Opcode::Decrement => 0x06,
            Opcode::Quit => 0x07,
            Opcode::Flush => 0x08,
            Opcode::GetQ => 0x09,
            Opcode::Noop => 0x0A,
            Opcode::Version => 0x0B,
            Opcode::GetK => 0x0C,
            Opcode::GetKQ => 0x0D,
            Opcode::Append => 0x0E,
            Opcode::Prepend => 0x0F,
            Opcode::Stat => 0x10,
            Opcode::SetQ => 0x11,
            Opcode::AddQ => 0x12,
            Opcode::ReplaceQ => 0x13,
            Opcode::DeleteQ => 0x14,
            Opcode::IncrementQ => 0x15,
            Opcode::DecrementQ => 0x16,
            Opcode::QuitQ => 0x17,
            Opcode::FlushQ => 0x18,
            Opcode::AppendQ => 0x19,
            Opcode::PrependQ => 0x1A,
        }
    }

    /// The operation that `b` stands for, if any: the codes are `0x00`
    /// to `0x1A` without a gap.
    pub open spec fn of_byte(b: u8) -> Option<Opcode> {
        if b == 0x00 {
            Some(Opcode::Get)
        } else if b == 0x01 {
            Some(Opcode::Store)
        } else if b == 0x02 {
            Some(Opcode::Add)
        } else if b == 0x03 {
            Some(Opcode::Replace)
        } else if b == 0x04 {
            Some(Opcode::Delete)
        } else if b == 0x05 {
            Some(Opcode::Increment)
        } else if b == 0x06 {
            Some(Opcode::Decrement)
        } else if b == 0x07 {
            Some(Opcode::Quit)
        } else if b == 0x08 {
            Some(Opcode::Flush)
        } else if b == 0x09 {
            Some(Opcode::GetQ)
        } else if b == 0x0A {
            Some(Opcode::Noop)
        } else if b == 0x0B {
            Some(Opcode::Version)
        } else if b == 0x0C {
            Some(Opcode::GetK)
        } else if b == 0x0D {
            Some(Opcode::GetKQ)
        } else if b == 0x0E {
            Some(Opcode::Append)
        } else if b == 0x0F {
            Some(Opcode::Prepend)
        } else if b == 0x10 {
            Some(Opcode::Stat)
        } else if b == 0x11 {
            Some(Opcode::SetQ)
        } else if b == 0x12 {
            Some(Opcode::AddQ)
        } else if b == 0x13 {
            Some(Opcode::ReplaceQ)
        } else if b == 0x14 {
            Some(Opcode::DeleteQ)
        } else if b == 0x15 {
            Some(Opcode::IncrementQ)
        } else if b == 0x16 {
            Some(Opcode::DecrementQ)
        } else if b == 0x17 {
            Some(Opcode::QuitQ)
        } else if b == 0x18 {
            Some(Opcode::FlushQ)
        } else if b == 0x19 {
            Some(Opcode::AppendQ)
        } else if b == 0x1A {
            Some(Opcode::PrependQ)
        } else {
            None
        }
    }

    /// Every operation has a code in the table, and reading that code gives
    /// the operation back.
    pub proof fn lemma_byte_round_trip(self)
        ensures
            self.byte() <= 0x1A,
            Opcode::of_byte(self.byte()) == Some(self),
    {
    }

    /// A byte is the code of at most one operation, and exactly the bytes up
    /// to `0x1A` are codes.
    pub proof fn lemma_of_byte(b: u8)
        ensures
            Opcode::of_byte(b) is Some <==> b <= 0x1A,
            Opcode::of_byte(b) is Some ==> Opcode::of_byte(b).unwrap().byte() == b,
    {
    }

    /// The byte that stands for this operation on the wire.
    pub fn to_u8(&self) -> (b: u8)
        ensures
            b == self.byte(),
    {
        match self {
            Opcode::Get => 0x00,
            Opcode::Store => 0x01,
            Opcode::Add => 0x02,
            Opcode::Replace => 0x03,
            Opcode::Delete => 0x04,
            Opcode::Increment => 0x05,
            Opcode::Decrement => 0x06,
            Opcode::Quit => 0x07,
            Opcode::Flush => 0x08,
            Opcode::GetQ => 0x09,
            Opcode::Noop => 0x0A,
            Opcode::Version => 0x0B,
            Opcode::GetK => 0x0C,
            Opcode::GetKQ => 0x0D,
            Opcode::Append => 0x0E,
            Opcode::Prepend => 0x0F,
            Opcode::Stat => 0x10,
            Opcode::SetQ => 0x11,
            Opcode::AddQ => 0x12,
            Opcode::ReplaceQ => 0x13,
            Opcode::DeleteQ => 0x14,
            Opcode::IncrementQ => 0x15,
            Opcode::DecrementQ => 0x16,
            Opcode::QuitQ => 0x17,
            Opcode::FlushQ => 0x18,
            Opcode::AppendQ => 0x19,
            Opcode::PrependQ => 0x1A,
        }
    }

    /// Reads an operation from its code; `None` for a byte that is no code.
    pub fn from_u8(b: u8) -> (r: Option<Opcode>)
        ensures
            r == Opcode::of_byte(b),
            r is Some <==> b <= 0x1A,
            r is Some ==> r.unwrap().byte() == b,
    {
        match b {
            0x00 => Some(Opcode::Get),
            0x01 => Some(Opcode::Store),
            0x02 => Some(Opcode::Add),
            0x03 => Some(Opcode::Replace),
            0x04 => Some(Opcode::Delete),
            0x05 => Some(Opcode::Increment),
            0x06 => Some(Opcode::Decrement),
            0x07 => Some(Opcode::Quit),
            0x08 => Some(Opcode::Flush),
            0x09 => Some(Opcode::GetQ),
            0x0A => Some(Opcode::Noop),
            0x0B => Some(Opcode::Version),
            0x0C => Some(Opcode::GetK),
            0x0D => Some(Opcode::GetKQ),
            0x0E => Some(Opcode::Append),
            0x0F => Some(Opcode::Prepend),
            0x10 => Some(Opcode::Stat),
            0x11 => Some(Opcode::SetQ),
            0x12 => Some(Opcode::AddQ),
            0x13 => Some(Opcode::ReplaceQ),
            0x14 => Some(Opcode::DeleteQ),
            0x15 => Some(Opcode::IncrementQ),
            0x16 => Some(Opcode::DecrementQ),
            0x17 => Some(Opcode::QuitQ),
            0x18 => Some(Opcode::FlushQ),
            0x19 => Some(Opcode::AppendQ),
            0x1A => Some(Opcode::PrependQ),
            _ => None,
        }
    }
}

} // verus!
