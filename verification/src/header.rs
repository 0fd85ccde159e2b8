//! The fixed 24-byte header, in its request and its response shape.
//!
//! | Offset | Width | Request       | Response      |
//! |-------:|------:|---------------|---------------|
//! | 0      | 1     | magic `0x80`  | magic `0x81`  |
//! | 1      | 1     | opcode        | opcode        |
//! | 2      | 2     | key length    | key length    |
//! | 4      | 1     | extras length | extras length |
//! | 5      | 1     | data type     | data type     |
//! | 6      | 2     | vbucket id    | status        |
//! | 8      | 4     | total body    | total body    |
//! | 12     | 4     | opaque        | opaque        |
//! | 16     | 8     | cas           | cas           |
//!
//! All integers are big-endian.

use vstd::prelude::*;
use crate::bigendian::{be16_at, be16_bytes, be32_at, be32_bytes, be64_at, be64_bytes};
use crate::bigendian::{read_be_u16, read_be_u32, read_be_u64};
use crate::error::ParseError;
use crate::magic::{DataType, Magic};
use crate::opcode::Opcode;
use crate::status::ResponseStatus;

verus! {

/// The number of bytes of a header.
pub const HEADER_LENGTH: usize = 24;

/// The header of a packet from server to client.
#[derive(Debug, Clone, Copy, PartialEq, Eq, Structural)]
pub struct ResponseHeader {
    pub opcode: Opcode,
    /// The length of the key in bytes.
    pub key_length: u16,
    /// The length of the extras in bytes.
    pub extras_length: u8,
    pub data_type: DataType,
    pub status: ResponseStatus,
    /// The length of extras, key and value together.
    pub body_length: u32,
    /// A token of the client's, echoed by the server.
    pub opaque: u32,
    /// The version tag of the item.
    pub cas: u64,
}

/// The header of a packet from client to server.
#[derive(Debug, Clone, Copy, PartialEq, Eq, Structural)]
pub struct RequestHeader {
    pub opcode: Opcode,
    /// The length of the key in bytes.
    pub key_length: u16,
    /// The length of the extras in bytes.
    pub extras_length: u8,
    pub data_type: DataType,
    /// The shard of the server that the request is for.
    pub vbucket_id: u16,
    /// The length of extras, key and value together.
    pub body_length: u32,
    /// A token of the client's, echoed by the server.
    pub opaque: u32,
    /// The version tag of the item.
    pub cas: u64,
}

/// A header of either shape.
#[derive(Debug, Clone, Copy, PartialEq, Eq, Structural)]
pub enum HeaderType {
    Request(RequestHeader),
    Response(ResponseHeader),
}

/// The three lengths that a header declares for the body behind it.
pub trait Header {
    /// The length of the extras.
    spec fn spec_extras_length(&self) -> nat;

    /// The length of the key.
    spec fn spec_key_length(&self) -> nat;

    /// The length of extras, key and value together.
    spec fn spec_total_body_length(&self) -> nat;

    /// The length of the extras.
    fn extras_length(&self) -> (n: usize)
        ensures
            n == self.spec_extras_length(),
    ;

    /// The length of the key.
    fn key_length(&self) -> (n: usize)
        ensures
            n == self.spec_key_length(),
    ;

    /// The length of the value: what is left of the body after extras and
    /// key. The header must leave room for both.
    fn body_length(&self) -> (n: usize)
        requires
            self.spec_extras_length() + self.spec_key_length() <= self.spec_total_body_length(),
        ensures
            n == self.spec_total_body_length() - self.spec_extras_length()
                - self.spec_key_length(),
    ;
}

impl Header for HeaderType {
    open spec fn spec_extras_length(&self) -> nat {
        match self {
            HeaderType::Request(r) => r.extras_length as nat,
            HeaderType::Response(r) => r.extras_length as nat,
        }
    }

    open spec fn spec_key_length(&self) -> nat {
        match self {
            HeaderType::Request(r) => r.key_length as nat,
            HeaderType::Response(r) => r.key_length as nat,
        }
    }

    open spec fn spec_total_body_length(&self) -> nat {
        match self {
            HeaderType::Request(r) => r.body_length as nat,
            HeaderType::Response(r) => r.body_length as nat,
        }
    }

    fn extras_length(&self) -> (n: usize) {
        match self {
            HeaderType::Request(r) => r.extras_length as usize,
            HeaderType::Response(r) => r.extras_length as usize,
        }
    }

    fn key_length(&self) -> (n: usize) {
        match self {
            HeaderType::Request(r) => r.key_length as usize,
            HeaderType::Response(r) => r.key_length as usize,
        }
    }

    fn body_length(&self) -> (n: usize) {
        let full_body: usize = match self {
            HeaderType::Request(r) => r.body_length as usize,
            HeaderType::Response(r) => r.body_length as usize,
        };
        full_body - self.key_length() - self.extras_length()
    }
}

impl HeaderType {
    /// The direction of the packet.
    pub open spec fn magic(self) -> Magic {
        match self {
            HeaderType::Request(_) => Magic::Request,
            HeaderType::Response(_) => Magic::Response,
        }
    }

    /// The header's operation.
    pub open spec fn opcode(self) -> Opcode {
        match self {
            HeaderType::Request(r) => r.opcode,
            HeaderType::Response(r) => r.opcode,
        }
    }

    /// What bytes 6 and 7 hold: the vbucket id of a request, the status code
    /// of a response.
    pub open spec fn vbucket_or_status(self) -> u16 {
        match self {
            HeaderType::Request(r) => r.vbucket_id,
            HeaderType::Response(r) => r.status.code(),
        }
    }

    /// The header's opaque token.
    pub open spec fn opaque(self) -> u32 {
        match self {
            HeaderType::Request(r) => r.opaque,
            HeaderType::Response(r) => r.opaque,
        }
    }

    /// The header's version tag.
    pub open spec fn cas(self) -> u64 {
        match self {
            HeaderType::Request(r) => r.cas,
            HeaderType::Response(r) => r.cas,
        }
    }

    /// Whether the declared body has room for the declared extras and key.
    pub open spec fn lengths_fit(self) -> bool {
        self.spec_extras_length() + self.spec_key_length() <= self.spec_total_body_length()
    }

    /// The length of the value: what is left of the body after extras and
    /// key.
    pub open spec fn spec_body_length(self) -> int {
        self.spec_total_body_length() - self.spec_extras_length() - self.spec_key_length()
    }

    /// The 24 bytes of the header on the wire.
    pub open spec fn wire(self) -> Seq<u8> {
        match self {
            HeaderType::Request(r) => r.wire(),
            HeaderType::Response(r) => r.wire(),
        }
    }
}

impl RequestHeader {
    /// The 24 bytes of the header on the wire, field by field.
    pub open spec fn wire(self) -> Seq<u8> {
        seq![Magic::Request.byte(), self.opcode.byte()] + be16_bytes(self.key_length)
            + seq![self.extras_length, self.data_type.byte()] + be16_bytes(self.vbucket_id)
            + be32_bytes(self.body_length) + be32_bytes(self.opaque) + be64_bytes(self.cas)
    }
}

impl ResponseHeader {
    /// The 24 bytes of the header on the wire, field by field.
    pub open spec fn wire(self) -> Seq<u8> {
        seq![Magic::Response.byte(), self.opcode.byte()] + be16_bytes(self.key_length)
            + seq![self.extras_length, self.data_type.byte()] + be16_bytes(self.status.code())
            + be32_bytes(self.body_length) + be32_bytes(self.opaque) + be64_bytes(self.cas)
    }
}

/// The request header that the first 24 bytes of `b` hold, once the magic
/// byte has been seen.
pub open spec fn parse_request_header(b: Seq<u8>) -> Result<HeaderType, ParseError>
    recommends
        b.len() >= HEADER_LENGTH,
{
    if Opcode::of_byte(b[1]) is None {
        Err(ParseError::UnknownOpcode)
    } else if DataType::of_byte(b[5]) is None {
        Err(ParseError::UnsupportedDataType)
    } else {
        Ok(
            HeaderType::Request(
                RequestHeader {
                    opcode: Opcode::of_byte(b[1]).unwrap(),
                    key_length: be16_at(b, 2),
                    extras_length: b[4],
                    data_type: DataType::Raw,
                    vbucket_id: be16_at(b, 6),
                    body_length: be32_at(b, 8),
                    opaque: be32_at(b, 12),
                    cas: be64_at(b, 16),
                },
            ),
        )
    }
}

/// The response header that the first 24 bytes of `b` hold, once the magic
/// byte has been seen.
pub open spec fn parse_response_header(b: Seq<u8>) -> Result<HeaderType, ParseError>
    recommends
        b.len() >= HEADER_LENGTH,
{
    if Opcode::of_byte(b[1]) is None {
        Err(ParseError::UnknownOpcode)
    } else if DataType::of_byte(b[5]) is None {
        Err(ParseError::UnsupportedDataType)
    } else if ResponseStatus::of_code(be16_at(b, 6)) is None {
        Err(ParseError::UnknownStatus)
    } else {
        Ok(
            HeaderType::Response(
                ResponseHeader {
                    opcode: Opcode::of_byte(b[1]).unwrap(),
                    key_length: be16_at(b, 2),
                    extras_length: b[4],
                    data_type: DataType::Raw,
                    status: ResponseStatus::of_code(be16_at(b, 6)).unwrap(),
                    body_length: be32_at(b, 8),
                    opaque: be32_at(b, 12),
                    cas: be64_at(b, 16),
                },
            ),
        )
    }
}

/// The header at the front of `b`: a buffer of fewer than 24 bytes holds
/// none, and the magic byte decides the shape.
pub open spec fn parse_header(b: Seq<u8>) -> Result<HeaderType, ParseError> {
    if b.len() < HEADER_LENGTH {
        Err(ParseError::ShortHeader)
    } else {
        match Magic::of_byte(b[0]) {
            None => Err(ParseError::BadMagic),
            Some(Magic::Request) => parse_request_header(b),
            Some(Magic::Response) => parse_response_header(b),
        }
    }
}

/// Reads a request header from the first 24 bytes of `input`, whose magic
/// byte has been seen.
fn request_header(input: &[u8]) -> (r: Result<HeaderType, ParseError>)
    requires
        input@.len() >= HEADER_LENGTH,
    ensures
        r == parse_request_header(input@),
{
    let opcode = match Opcode::from_u8(input[1]) {
        Some(opcode) => opcode,
        None => { return Err(ParseError::UnknownOpcode); },
    };
    let key_length: u16 = read_be_u16(input, 2);
    let extras_length: u8 = input[4];
    let data_type = match DataType::from_u8(input[5]) {
        Some(data_type) => data_type,
        None => { return Err(ParseError::UnsupportedDataType); },
    };
    let vbucket: u16 = read_be_u16(input, 6);
    let body_length: u32 = read_be_u32(input, 8);
    let opaque: u32 = read_be_u32(input, 12);
    let cas: u64 = read_be_u64(input, 16);
    let req = RequestHeader {
        opcode: opcode,
        key_length: key_length,
        extras_length: extras_length,
        data_type: data_type,
        vbucket_id: vbucket,
        body_length: body_length,
        opaque: opaque,
        cas: cas,
    };
    Ok(HeaderType::Request(req))
}

/// Reads a response header from the first 24 bytes of `input`, whose magic
/// byte has been seen.
fn response_header(input: &[u8]) -> (r: Result<HeaderType, ParseError>)
    requires
        input@.len() >= HEADER_LENGTH,
    ensures
        r == parse_response_header(input@),
{
    let opcode = match Opcode::from_u8(input[1]) {
        Some(opcode) => opcode,
        None => { return Err(ParseError::UnknownOpcode); },
    };
    let key_length: u16 = read_be_u16(input, 2);
    let extras_length: u8 = input[4];
    let data_type = match DataType::from_u8(input[5]) {
        Some(data_type) => data_type,
        None => { return Err(ParseError::UnsupportedDataType); },
    };
    let status = match ResponseStatus::from_u16(read_be_u16(input, 6)) {
        Some(status) => status,
        None => { return Err(ParseError::UnknownStatus); },
    };
    let body_length: u32 = read_be_u32(input, 8);
    let opaque: u32 = read_be_u32(input, 12);
    let cas: u64 = read_be_u64(input, 16);
    Ok(
        HeaderType::Response(
            ResponseHeader {
                opcode: opcode,
                key_length: key_length,
                extras_length: extras_length,
                data_type: data_type,
                status: status,
                body_length: body_length,
                opaque: opaque,
                cas: cas,
            },
        ),
    )
}

/// Reads the header at the front of `input`.
///
/// Fails with `ShortHeader` on fewer than 24 bytes, then with `BadMagic`,
/// `UnknownOpcode`, `UnsupportedDataType` and, for a response,
/// `UnknownStatus`, in this order.
pub fn header(input: &[u8]) -> (r: Result<HeaderType, ParseError>)
    ensures
        r == parse_header(input@),
        r is Ok ==> input@.len() >= HEADER_LENGTH && r.unwrap().magic().byte() == input@[0],
{
    if input.len() < HEADER_LENGTH {
        return Err(ParseError::ShortHeader);
    }
    match Magic::from_u8(input[0]) {
        None => Err(ParseError::BadMagic),
        Some(Magic::Request) => request_header(input),
        Some(Magic::Response) => response_header(input),
    }
}

} // verus!
