//! The magic byte that opens a packet, and the data type byte.

use vstd::prelude::*;

verus! {

/// The direction of a packet, told by its first byte.
#[derive(Debug, Clone, Copy, PartialEq, Eq, Structural)]
pub enum Magic {
    /// A packet from client to server, `0x80`.
    Request,
    /// A packet from server to client, `0x81`.
    Response,
}

impl Magic {
    /// The byte that opens a packet of this direction.
    pub open spec fn byte(self) -> u8 {
        match self {
            Magic::Request => 0x80,
            Magic::Response => 0x81,
        }
    }

    /// The direction that `b` announces, if any.
    pub open spec fn of_byte(b: u8) -> Option<Magic> {
        if b == 0x80 {
            Some(Magic::Request)
        } else if b == 0x81 {
            Some(Magic::Response)
        } else {
            None
        }
    }

    /// The byte that opens a packet of this direction.
    pub fn to_u8(&self) -> (b: u8)
        ensures
            b == self.byte(),
    {
        match self {
            Magic::Request => 0x80,
            Magic::Response => 0x81,
        }
    }

    /// Reads a direction from the first byte of a packet; `None` for any
    /// byte but `0x80` and `0x81`.
    pub fn from_u8(b: u8) -> (r: Option<Magic>)
        ensures
            r == Magic::of_byte(b),
            r == Some(Magic::Request) <==> b == 0x80,
            r == Some(Magic::Response) <==> b == 0x81,
    {
        match b {
            0x80 => Some(Magic::Request),
            0x81 => Some(Magic::Response),
            _ => None,
        }
    }
}

/// How the value of a packet is encoded. Raw bytes are the only encoding.
#[derive(Debug, Clone, Copy, PartialEq, Eq, Structural)]
pub enum DataType {
    /// Raw bytes, `0x00`.
    Raw,
}

impl DataType {
    /// The byte that stands for this data type on the wire.
    pub open spec fn byte(self) -> u8 {
        0x00
    }

    /// The data type that `b` stands for, if any.
    pub open spec fn of_byte(b: u8) -> Option<DataType> {
        if b == 0x00 {
            Some(DataType::Raw)
        } else {
            None
        }
    }

    /// The byte that stands for this data type on the wire.
    pub fn to_u8(&self) -> (b: u8)
        ensures
            b == self.byte(),
    {
        0x00
    }

    /// Reads a data type from its byte; `None` for any byte but `0x00`.
    pub fn from_u8(b: u8) -> (r: Option<DataType>)
        ensures
            r == DataType::of_byte(b),
            r is Some <==> b == 0x00,
    {
        if b == 0x00 {
            Some(DataType::Raw)
        } else {
            None
        }
    }
}

} // verus!
