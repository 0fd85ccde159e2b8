//! The codec: packets out of a receive buffer, packets into a send buffer.

use vstd::prelude::*;
use tokio_core::io::EasyBuf;
use crate::bigendian::{write_be_u16, write_be_u32, write_be_u64};
use crate::easybuf::easybuf_bytes;
use crate::header::HeaderType;
use crate::packet::{packet, parse_packet, Packet};

verus! {

/// The codec of the memcached binary protocol. It keeps no state between
/// packets.
pub struct MemcacheCodec;

impl MemcacheCodec {
    /// Takes the first packet out of `buf`.
    ///
    /// Where the front of `buf` holds a packet, the packet is returned and
    /// `buf` keeps the bytes behind it. Otherwise `buf` is left as it is and
    /// there is no packet.
    pub fn decode(&mut self, buf: &mut EasyBuf) -> (r: Option<Packet>)
        ensures
            match parse_packet(easybuf_bytes(*old(buf))) {
                Ok((rest, p)) => r is Some && r.unwrap()@ == p && easybuf_bytes(*final(buf))
                    == rest,
                Err(_) => r is None && easybuf_bytes(*final(buf)) == easybuf_bytes(*old(buf)),
            },
            r is Some ==> r.unwrap()@.well_formed() && r.unwrap()@.wire() + easybuf_bytes(
                *final(buf),
            ) == easybuf_bytes(*old(buf)),
    {
        let input = buf.as_slice();
        let (consumed, p) = match packet(input) {
            Ok((rest, p)) => (input.len() - rest.len(), p),
            Err(_) => { return None; },
        };
        let _ = buf.drain_to(consumed);
        Some(p)
    }

    /// Appends the wire form of `msg` to `buf`: the 24 bytes of the header
    /// with the lengths as the header declares them, then extras, key and
    /// value.
    pub fn encode(&mut self, msg: Packet, buf: &mut Vec<u8>)
        ensures
            final(buf)@ == old(buf)@ + msg@.wire(),
    {
        match msg.header {
            HeaderType::Request(h) => {
                buf.push(0x80);
                buf.push(h.opcode.to_u8());
                write_be_u16(buf, h.key_length);
                buf.push(h.extras_length);
                buf.push(h.data_type.to_u8());
                write_be_u16(buf, h.vbucket_id);
                write_be_u32(buf, h.body_length);
                write_be_u32(buf, h.opaque);
                write_be_u64(buf, h.cas);
            },
            HeaderType::Response(h) => {
                buf.push(0x81);
                buf.push(h.opcode.to_u8());
                write_be_u16(buf, h.key_length);
                buf.push(h.extras_length);
                buf.push(h.data_type.to_u8());
                write_be_u16(buf, h.status.to_u16());
                write_be_u32(buf, h.body_length);
                write_be_u32(buf, h.opaque);
                write_be_u64(buf, h.cas);
            },
        }
        assert(buf@ =~= old(buf)@ + msg.header.wire());
        buf.extend_from_slice(msg.extras.as_slice());
        buf.extend_from_slice(msg.key.as_slice());
        buf.extend_from_slice(msg.body.as_slice());
        assert(buf@ =~= old(buf)@ + msg@.wire());
    }
}

} // verus!
