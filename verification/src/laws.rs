//! What holds between the wire form of a packet and the parser.

use vstd::prelude::*;
use crate::bigendian::{be16_at, be16_bytes, be32_at, be32_bytes, be64_at, be64_bytes};
use crate::bigendian::{
    lemma_be16_of_bytes,
    lemma_be32_of_bytes,
    lemma_be64_of_bytes,
    lemma_bytes_of_be16,
    lemma_bytes_of_be32,
    lemma_bytes_of_be64,
};
use crate::error::ParseError;
use crate::header::{parse_header, Header, HeaderType, HEADER_LENGTH};
use crate::magic::Magic;
use crate::opcode::Opcode;
use crate::packet::{parse_packet, PacketView};
use crate::status::ResponseStatus;

verus! {

/// The wire form of a header has 24 bytes, and each field sits at its fixed
/// offset.
pub proof fn lemma_header_wire_layout(h: HeaderType)
    ensures
        h.wire().len() == HEADER_LENGTH,
        h.wire()[0] == h.magic().byte(),
        h.wire()[1] == h.opcode().byte(),
        be16_at(h.wire(), 2) == h.spec_key_length(),
        h.wire()[4] == h.spec_extras_length(),
        h.wire()[5] == 0x00,
        be16_at(h.wire(), 6) == h.vbucket_or_status(),
        be32_at(h.wire(), 8) == h.spec_total_body_length(),
        be32_at(h.wire(), 12) == h.opaque(),
        be64_at(h.wire(), 16) == h.cas(),
{
    let w = h.wire();
    let key = be16_bytes(h.spec_key_length() as u16);
    let word = be16_bytes(h.vbucket_or_status());
    let total = be32_bytes(h.spec_total_body_length() as u32);
    let opaque = be32_bytes(h.opaque());
    let cas = be64_bytes(h.cas());
    lemma_be16_of_bytes(h.spec_key_length() as u16);
    lemma_be16_of_bytes(h.vbucket_or_status());
    lemma_be32_of_bytes(h.spec_total_body_length() as u32);
    lemma_be32_of_bytes(h.opaque());
    lemma_be64_of_bytes(h.cas());
    assert(w.len() == 24);
    assert(w[2] == key[0] && w[3] == key[1]);
    assert(w[6] == word[0] && w[7] == word[1]);
    assert(w[8] == total[0] && w[9] == total[1] && w[10] == total[2] && w[11] == total[3]);
    assert(w[12] == opaque[0] && w[13] == opaque[1] && w[14] == opaque[2] && w[15] == opaque[3]);
    assert(w[16] == cas[0] && w[17] == cas[1] && w[18] == cas[2] && w[19] == cas[3]);
    assert(w[20] == cas[4] && w[21] == cas[5] && w[22] == cas[6] && w[23] == cas[7]);
}

/// A header is read back from its wire form, whatever follows the 24 bytes.
pub proof fn lemma_parse_header_of_wire(h: HeaderType, tail: Seq<u8>)
    ensures
        parse_header(h.wire() + tail) == Ok::<HeaderType, ParseError>(h),
{
    let w = h.wire();
    let b = w + tail;
    lemma_header_wire_layout(h);
    assert forall|i: int| 0 <= i < 24 implies b[i] == w[i] by {}
    h.opcode().lemma_byte_round_trip();
    match h {
        HeaderType::Request(r) => {},
        HeaderType::Response(r) => {
            r.status.lemma_code_round_trip();
        },
    }
}

/// The header that a buffer parses to has the first 24 bytes of the buffer
/// as its wire form.
pub proof fn lemma_wire_of_parsed_header(b: Seq<u8>)
    requires
        parse_header(b) is Ok,
    ensures
        b.len() >= HEADER_LENGTH,
        parse_header(b).unwrap().wire() == b.subrange(0, HEADER_LENGTH as int),
{
    let h = parse_header(b).unwrap();
    Opcode::lemma_of_byte(b[1]);
    lemma_bytes_of_be16(b[2], b[3]);
    lemma_bytes_of_be16(b[6], b[7]);
    lemma_bytes_of_be32(b[8], b[9], b[10], b[11]);
    lemma_bytes_of_be32(b[12], b[13], b[14], b[15]);
    lemma_bytes_of_be64(b[16], b[17], b[18], b[19], b[20], b[21], b[22], b[23]);
    if h is Response {
        ResponseStatus::lemma_of_code(be16_at(b, 6));
    }
    assert(h.wire() =~= b.subrange(0, HEADER_LENGTH as int));
}

/// Where the parts of a concatenation lie in it.
proof fn lemma_parts_of_concat(
    head: Seq<u8>,
    extras: Seq<u8>,
    key: Seq<u8>,
    body: Seq<u8>,
    tail: Seq<u8>,
)
    ensures
        ({
            let b = head + extras + key + body + tail;
            let extras_end = head.len() + extras.len();
            let key_end = extras_end + key.len();
            let body_end = key_end + body.len();
            &&& b.len() == body_end + tail.len()
            &&& b == head + (extras + key + body + tail)
            &&& b.subrange(head.len() as int, extras_end as int) == extras
            &&& b.subrange(extras_end as int, key_end as int) == key
            &&& b.subrange(key_end as int, body_end as int) == body
            &&& b.subrange(body_end as int, b.len() as int) == tail
        }),
{
    let b = head + extras + key + body + tail;
    let extras_end = head.len() + extras.len();
    let key_end = extras_end + key.len();
    let body_end = key_end + body.len();
    assert(b =~= head + (extras + key + body + tail));
    assert(b.subrange(head.len() as int, extras_end as int) =~= extras);
    assert(b.subrange(extras_end as int, key_end as int) =~= key);
    assert(b.subrange(key_end as int, body_end as int) =~= body);
    assert(b.subrange(body_end as int, b.len() as int) =~= tail);
}

/// Appending twice is appending the concatenation, and appending to nothing
/// changes nothing.
proof fn lemma_append_twice(x: Seq<u8>, y: Seq<u8>, z: Seq<u8>)
    ensures
        (x + y) + z == x + (y + z),
        y.len() == 0 ==> y + z == z,
{
    assert((x + y) + z =~= x + (y + z));
    if y.len() == 0 {
        assert(y + z =~= z);
    }
}

/// A sequence is the concatenation of the parts that four cuts leave of it.
proof fn lemma_concat_of_parts(b: Seq<u8>, head_end: int, extras_end: int, key_end: int, body_end: int)
    requires
        0 <= head_end <= extras_end <= key_end <= body_end <= b.len(),
    ensures
        b.subrange(0, head_end) + b.subrange(head_end, extras_end) + b.subrange(
            extras_end,
            key_end,
        ) + b.subrange(key_end, body_end) + b.subrange(body_end, b.len() as int) == b,
{
    assert(b.subrange(0, head_end) + b.subrange(head_end, extras_end) + b.subrange(
        extras_end,
        key_end,
    ) + b.subrange(key_end, body_end) + b.subrange(body_end, b.len() as int) =~= b);
}

/// The wire form of a well-formed packet, followed by any bytes, parses to
/// that packet and those bytes.
pub proof fn lemma_parse_of_wire(p: PacketView, tail: Seq<u8>)
    requires
        p.well_formed(),
    ensures
        parse_packet(p.wire() + tail) == Ok::<(Seq<u8>, PacketView), ParseError>((tail, p)),
{
    let h = p.header;
    lemma_header_wire_layout(h);
    lemma_parts_of_concat(h.wire(), p.extras, p.key, p.body, tail);
    lemma_parse_header_of_wire(h, p.extras + p.key + p.body + tail);
}

/// The parser reads back what the serializer wrote: the wire form of a
/// well-formed packet parses to that packet, and nothing remains.
pub proof fn lemma_round_trip(p: PacketView)
    requires
        p.well_formed(),
    ensures
        parse_packet(p.wire()) == Ok::<(Seq<u8>, PacketView), ParseError>((Seq::empty(), p)),
{
    lemma_parse_of_wire(p, Seq::empty());
    assert(p.wire() + Seq::<u8>::empty() =~= p.wire());
}

/// A buffer that parses is the wire form of its packet followed by the bytes
/// that remain.
pub proof fn lemma_wire_of_parsed(b: Seq<u8>)
    requires
        parse_packet(b) is Ok,
    ensures
        parse_packet(b).unwrap().1.wire() + parse_packet(b).unwrap().0 == b,
{
    let (rest, p) = parse_packet(b).unwrap();
    let h = p.header;
    let extras_end = HEADER_LENGTH + h.spec_extras_length();
    let key_end = extras_end + h.spec_key_length();
    let body_end = HEADER_LENGTH + h.spec_total_body_length();
    lemma_wire_of_parsed_header(b);
    lemma_concat_of_parts(b, HEADER_LENGTH as int, extras_end as int, key_end as int, body_end as int);
}

/// The serializer writes back what the parser read: where a buffer parses
/// and nothing remains, the wire form of the packet is the buffer.
pub proof fn lemma_byte_round_trip(b: Seq<u8>)
    requires
        parse_packet(b) is Ok,
        parse_packet(b).unwrap().0.len() == 0,
    ensures
        parse_packet(b).unwrap().1.wire() == b,
{
    let (rest, p) = parse_packet(b).unwrap();
    lemma_wire_of_parsed(b);
    assert(p.wire() + rest =~= p.wire());
}

/// A parsed packet is well-formed: extras and key have the lengths that the
/// header declares for them, and extras, key and value together have the
/// length that it declares for the body.
pub proof fn lemma_parsed_well_formed(b: Seq<u8>)
    requires
        parse_packet(b) is Ok,
    ensures
        parse_packet(b).unwrap().1.well_formed(),
        parse_packet(b).unwrap().1.body.len() == parse_packet(b).unwrap().1.header.spec_body_length(),
{
}

/// The header of a parsed packet has the shape that the first byte of the
/// buffer announces: a request for `0x80`, a response for `0x81`.
pub proof fn lemma_parsed_magic(b: Seq<u8>)
    requires
        parse_packet(b) is Ok,
    ensures
        b.len() >= HEADER_LENGTH,
        parse_packet(b).unwrap().1.header is Request <==> b[0] == 0x80,
        parse_packet(b).unwrap().1.header is Response <==> b[0] == 0x81,
        parse_packet(b).unwrap().1.header.magic().byte() == b[0],
{
}

/// Bytes behind a packet do not change what is read: where a buffer parses,
/// the buffer with `tail` appended parses to the same packet, and `tail` is
/// appended to what remains. Behind a buffer that holds exactly one packet,
/// what remains is `tail`.
pub proof fn lemma_remainder(b: Seq<u8>, tail: Seq<u8>)
    requires
        parse_packet(b) is Ok,
    ensures
        parse_packet(b + tail) == Ok::<(Seq<u8>, PacketView), ParseError>(
            (parse_packet(b).unwrap().0 + tail, parse_packet(b).unwrap().1),
        ),
        parse_packet(b).unwrap().0.len() == 0 ==> parse_packet(b + tail).unwrap().0 == tail,
{
    let (rest, p) = parse_packet(b).unwrap();
    lemma_wire_of_parsed(b);
    lemma_parsed_well_formed(b);
    lemma_parse_of_wire(p, rest + tail);
    lemma_append_twice(p.wire(), rest, tail);
}

/// A byte that is no opcode is rejected as such, in a buffer that holds a
/// header with a magic byte.
pub proof fn lemma_unknown_opcode_rejected(b: Seq<u8>)
    requires
        b.len() >= HEADER_LENGTH,
        Magic::of_byte(b[0]) is Some,
        b[1] > 0x1A,
    ensures
        parse_packet(b) == Err::<(Seq<u8>, PacketView), ParseError>(ParseError::UnknownOpcode),
{
}

/// A data type byte other than `0x00` is rejected as such, in a buffer that
/// holds a header with a magic byte and an opcode.
pub proof fn lemma_unsupported_data_type_rejected(b: Seq<u8>)
    requires
        b.len() >= HEADER_LENGTH,
        Magic::of_byte(b[0]) is Some,
        Opcode::of_byte(b[1]) is Some,
        b[5] != 0x00,
    ensures
        parse_packet(b) == Err::<(Seq<u8>, PacketView), ParseError>(
            ParseError::UnsupportedDataType,
        ),
{
}

/// A status that is not in the table is rejected as such, in a buffer that
/// holds a response header with an opcode and the data type `0x00`.
pub proof fn lemma_unknown_status_rejected(b: Seq<u8>)
    requires
        b.len() >= HEADER_LENGTH,
        b[0] == 0x81,
        Opcode::of_byte(b[1]) is Some,
        b[5] == 0x00,
        !ResponseStatus::is_code(be16_at(b, 6)),
    ensures
        parse_packet(b) == Err::<(Seq<u8>, PacketView), ParseError>(ParseError::UnknownStatus),
{
}

/// A header that declares extras and key longer than the body is rejected:
/// the buffer holds no packet, and where nothing else is wrong with the
/// header, the reason is `BadLengths`.
pub proof fn lemma_underflow_rejected(b: Seq<u8>)
    requires
        b.len() >= HEADER_LENGTH,
        b[4] + be16_at(b, 2) > be32_at(b, 8),
    ensures
        parse_packet(b) is Err,
        parse_header(b) is Ok ==> parse_packet(b) == Err::<(Seq<u8>, PacketView), ParseError>(
            ParseError::BadLengths,
        ),
{
}

/// A buffer that ends before the declared body holds no packet: with a
/// header that is in order, the reason is `ShortBody`.
pub proof fn lemma_short_body_rejected(b: Seq<u8>)
    requires
        parse_header(b) is Ok,
        parse_header(b).unwrap().lengths_fit(),
        b.len() < HEADER_LENGTH + parse_header(b).unwrap().spec_total_body_length(),
    ensures
        parse_packet(b) == Err::<(Seq<u8>, PacketView), ParseError>(ParseError::ShortBody),
{
}

} // verus!
