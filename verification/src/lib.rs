//! A codec for the memcached binary protocol.
//!
//! A packet is a 24-byte header followed by extras, key and value.
//! [`packet`] reads one packet from the front of a byte buffer and says what
//! is left behind it; [`MemcacheCodec::encode`] appends the wire form of a
//! packet to a buffer; [`MemcacheCodec::decode`] takes packets off a receive
//! buffer of tokio's framing layer.
//!
//! The wire format is described once, as mathematics: `PacketView::wire`
//! gives the bytes of a packet and `parse_packet` the packet at the front of
//! a sequence of bytes. The executable functions are proved against these,
//! and [`laws`] proves that the two descriptions are inverse to each other.

pub mod bigendian;
#[allow(deprecated)]
pub mod codec;
#[allow(deprecated)]
pub mod easybuf;
pub mod error;
pub mod header;
pub mod laws;
pub mod magic;
pub mod opcode;
pub mod packet;
pub mod status;

pub use crate::codec::MemcacheCodec;
pub use crate::error::ParseError;
pub use crate::header::{header, Header, HeaderType, RequestHeader, ResponseHeader, HEADER_LENGTH};
pub use crate::magic::{DataType, Magic};
pub use crate::opcode::Opcode;
pub use crate::packet::{packet, Packet};
pub use crate::status::ResponseStatus;
