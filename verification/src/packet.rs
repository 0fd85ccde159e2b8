//! A packet, and the parser that reads one from the front of a buffer.

use vstd::prelude::*;
use vstd::slice::{slice_subrange, slice_to_vec};
use crate::error::ParseError;
use crate::header::{header, parse_header, Header, HeaderType, HEADER_LENGTH};
use crate::laws::lemma_wire_of_parsed;
use crate::magic::Magic;

verus! {

/// A header and the three parts of the body behind it.
#[derive(Debug, PartialEq, Eq)]
pub struct Packet {
    pub header: HeaderType,
    /// Bytes between header and key, whose meaning depends on the operation.
    pub extras: Vec<u8>,
    pub key: Vec<u8>,
    /// The value.
    pub body: Vec<u8>,
}

/// A packet as a mathematical value: the header and three byte sequences.
pub struct PacketView {
    pub header: HeaderType,
    pub extras: Seq<u8>,
    pub key: Seq<u8>,
    pub body: Seq<u8>,
}

impl View for Packet {
    type V = PacketView;

    open spec fn view(&self) -> PacketView {
        PacketView { header: self.header, extras: self.extras@, key: self.key@, body: self.body@ }
    }
}

impl PacketView {
    /// Whether the header declares the lengths that the parts have: that of
    /// the extras, that of the key, and the sum of all three.
    pub open spec fn well_formed(self) -> bool {
        &&& self.extras.len() == self.header.spec_extras_length()
        &&& self.key.len() == self.header.spec_key_length()
        &&& self.extras.len() + self.key.len() + self.body.len()
            == self.header.spec_total_body_length()
    }

    /// The packet on the wire: the header, then extras, key and value, with
    /// nothing in between.
    pub open spec fn wire(self) -> Seq<u8> {
        self.header.wire() + self.extras + self.key + self.body
    }
}

/// What the front of `b` holds: the bytes behind the first packet, and that
/// packet; or the first reason, in the order of `ParseError`, for which it
/// holds none.
pub open spec fn parse_packet(b: Seq<u8>) -> Result<(Seq<u8>, PacketView), ParseError> {
    match parse_header(b) {
        Err(e) => Err(e),
        Ok(h) => {
            let extras_end = HEADER_LENGTH + h.spec_extras_length();
            let key_end = extras_end + h.spec_key_length();
            let body_end = HEADER_LENGTH + h.spec_total_body_length();
            if !h.lengths_fit() {
                Err(ParseError::BadLengths)
            } else if b.len() < body_end {
                Err(ParseError::ShortBody)
            } else {
                Ok(
                    (
                        b.subrange(body_end as int, b.len() as int),
                        PacketView {
                            header: h,
                            extras: b.subrange(HEADER_LENGTH as int, extras_end as int),
                            key: b.subrange(extras_end as int, key_end as int),
                            body: b.subrange(key_end as int, body_end as int),
                        },
                    ),
                )
            }
        },
    }
}

/// Whether `r` is the outcome `expected`, the buffers and the packet taken
/// by their views.
pub open spec fn parsed_as(
    r: Result<(&[u8], Packet), ParseError>,
    expected: Result<(Seq<u8>, PacketView), ParseError>,
) -> bool {
    match r {
        Ok((rest, p)) => expected == Ok::<(Seq<u8>, PacketView), ParseError>((rest@, p@)),
        Err(e) => expected == Err::<(Seq<u8>, PacketView), ParseError>(e),
    }
}

/// Reads one packet from the front of `input` and returns it with the bytes
/// that follow it.
///
/// The body is cut into extras, key and value by the lengths that the header
/// declares. A buffer that does not hold a whole packet is rejected, and so
/// is a header with an unknown field or with lengths that contradict each
/// other.
///
/// A packet that is returned is well-formed, has the shape that the first
/// byte announces, and its wire form followed by the returned bytes is
/// `input`.
pub fn packet(input: &[u8]) -> (r: Result<(&[u8], Packet), ParseError>)
    ensures
        parsed_as(r, parse_packet(input@)),
        r is Ok ==> {
            let (rest, p) = r.unwrap();
            &&& p@.well_formed()
            &&& p.header.magic() == Magic::Request <==> input@[0] == 0x80
            &&& p.header.magic() == Magic::Response <==> input@[0] == 0x81
            &&& p@.wire() + rest@ == input@
        },
{
    proof {
        if parse_packet(input@) is Ok {
            lemma_wire_of_parsed(input@);
        }
    }
    let header = match header(input) {
        Ok(header) => header,
        Err(e) => { return Err(e); },
    };
    let extras_length: usize = header.extras_length();
    let key_length: usize = header.key_length();
    let total_length: usize = match header {
        HeaderType::Request(r) => r.body_length as usize,
        HeaderType::Response(r) => r.body_length as usize,
    };
    if extras_length + key_length > total_length {
        return Err(ParseError::BadLengths);
    }
    if input.len() - HEADER_LENGTH < total_length {
        return Err(ParseError::ShortBody);
    }
    let extras_end: usize = HEADER_LENGTH + extras_length;
    let key_end: usize = extras_end + key_length;
    let body_end: usize = key_end + header.body_length();
    let extras = slice_to_vec(slice_subrange(input, HEADER_LENGTH, extras_end));
    let key = slice_to_vec(slice_subrange(input, extras_end, key_end));
    let body = slice_to_vec(slice_subrange(input, key_end, body_end));
    let rest = slice_subrange(input, body_end, input.len());
    Ok((rest, Packet { header: header, extras: extras, key: key, body: body }))
}

} // verus!
