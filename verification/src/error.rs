//! The ways in which a byte buffer can fail to hold a packet.

use vstd::prelude::*;

verus! {

/// Why a buffer was rejected. Where several apply, the first in this order
/// is reported.
#[derive(Debug, Clone, Copy, PartialEq, Eq, Structural)]
pub enum ParseError {
    /// The buffer holds fewer than the 24 bytes of a header.
    ShortHeader,
    /// The first byte is neither `0x80` nor `0x81`.
    BadMagic,
    /// The opcode byte is not the code of an operation.
    UnknownOpcode,
    /// The data type byte is not `0x00`.
    UnsupportedDataType,
    /// The status of a response is not the code of a status.
    UnknownStatus,
    /// Extras and key together are longer than the body that the header
    /// declares.
    BadLengths,
    /// The buffer ends before the body that the header declares.
    ShortBody,
}

} // verus!
