//! Packets from the protocol's description, each parsed and compared field
//! by field.

use memcache_protocol::{packet, HeaderType, Opcode, ResponseStatus};

#[test]
fn test_err() {
    let packet_contents: &[u8] = &[
        0x81, 0x00, 0x00, 0x00, 0x00, 0x00, 0x00, 0x01,
        0x00, 0x00, 0x00, 0x09, 0x00, 0x00, 0x00, 0x00,
        0x00, 0x00, 0x00, 0x00, 0x00, 0x00, 0x00, 0x00,
        b'N', b'o', b't', b' ', b'f', b'o', b'u', b'n',
        b'd',
    ];
    let (remaining, packet) = packet(packet_contents).unwrap();
    let header = match packet.header {
        HeaderType::Response(h) => h,
        _ => panic!(),
    };
    assert_eq!(&b""[..], remaining);
    assert_eq!(Opcode::Get, header.opcode);
    assert_eq!(0, header.key_length);
    assert_eq!(0, header.extras_length);
    assert_eq!(ResponseStatus::KeyNotFound, header.status);
    assert_eq!(9, header.body_length);
    assert_eq!(0, header.opaque);
    assert_eq!(0, header.cas);
    assert_eq!(&b""[..], &packet.extras[..]);
    assert_eq!(&b""[..], &packet.key[..]);
    assert_eq!(&b"Not found"[..], &packet.body[..]);
}

#[test]
fn get_request() {
    let packet_contents: &[u8] = &[
        0x80, 0x00, 0x00, 0x05, 0x00, 0x00, 0x00, 0x00,
        0x00, 0x00, 0x00, 0x05, 0x00, 0x00, 0x00, 0x00,
        0x00, 0x00, 0x00, 0x00, 0x00, 0x00, 0x00, 0x00,
        b'H', b'e', b'l', b'l', b'o',
    ];
    let (remaining, packet) = packet(packet_contents).unwrap();
    let header = match packet.header {
        HeaderType::Request(h) => h,
        _ => panic!(),
    };
    assert_eq!(&b""[..], remaining);
    assert_eq!(Opcode::Get, header.opcode);
    assert_eq!(5, header.key_length);
    assert_eq!(0, header.extras_length);
    assert_eq!(5, header.body_length);
    assert_eq!(0, header.opaque);
    assert_eq!(0, header.cas);
    assert_eq!(&b""[..], &packet.extras[..]);
    assert_eq!(&b"Hello"[..], &packet.key[..]);
    assert_eq!(&b""[..], &packet.body[..]);
}

#[test]
fn get_response() {
    let packet_contents: &[u8] = &[
        0x81, 0x00, 0x00, 0x00, 0x04, 0x00, 0x00, 0x00,
        0x00, 0x00, 0x00, 0x09, 0x00, 0x00, 0x00, 0x00,
        0x00, 0x00, 0x00, 0x00, 0x00, 0x00, 0x00, 0x01,
        0xde, 0xad, 0xbe, 0xef, b'W', b'o', b'r', b'l',
        b'd',
    ];
    let (remaining, packet) = packet(packet_contents).unwrap();
    let header = match packet.header {
        HeaderType::Response(h) => h,
        _ => panic!(),
    };
    assert_eq!(&b""[..], remaining);
    assert_eq!(Opcode::Get, header.opcode);
    assert_eq!(0, header.key_length);
    assert_eq!(4, header.extras_length);
    assert_eq!(ResponseStatus::NoError, header.status);
    assert_eq!(9, header.body_length);
    assert_eq!(0, header.opaque);
    assert_eq!(1, header.cas);
    assert_eq!(&[0xde, 0xad, 0xbe, 0xef][..], &packet.extras[..]);
    assert_eq!(&b""[..], &packet.key[..]);
    assert_eq!(&b"World"[..], &packet.body[..]);
}

#[test]
fn getk_test() {
    let packet_contents: &[u8] = &[
        0x81, 0x00, 0x00, 0x05, 0x04, 0x00, 0x00, 0x00,
        0x00, 0x00, 0x00, 0x0e, 0x00, 0x00, 0x00, 0x00,
        0x00, 0x00, 0x00, 0x00, 0x00, 0x00, 0x00, 0x01,
        0xde, 0xad, 0xbe, 0xef, b'H', b'e', b'l', b'l',
        b'o', b'W', b'o', b'r', b'l', b'd',
    ];
    let (remaining, packet) = packet(packet_contents).unwrap();
    let header = match packet.header {
        HeaderType::Response(h) => h,
        _ => panic!(),
    };
    assert_eq!(&b""[..], remaining);
    assert_eq!(Opcode::Get, header.opcode);
    assert_eq!(5, header.key_length);
    assert_eq!(4, header.extras_length);
    assert_eq!(ResponseStatus::NoError, header.status);
    assert_eq!(14, header.body_length);
    assert_eq!(0, header.opaque);
    assert_eq!(1, header.cas);
    assert_eq!(&[0xde, 0xad, 0xbe, 0xef][..], &packet.extras[..]);
    assert_eq!(&b"Hello"[..], &packet.key[..]);
    assert_eq!(&b"World"[..], &packet.body[..]);
}

#[test]
fn add_request() {
    let packet_contents: &[u8] = &[
        0x80, 0x02, 0x00, 0x05, 0x08, 0x00, 0x00, 0x00,
        0x00, 0x00, 0x00, 0x12, 0x00, 0x00, 0x00, 0x00,
        0x00, 0x00, 0x00, 0x00, 0x00, 0x00, 0x00, 0x00,
        0xde, 0xad, 0xbe, 0xef, 0x00, 0x00, 0x0e, 0x10,
        b'H', b'e', b'l', b'l', b'o', b'W', b'o', b'r',
        b'l', b'd',
    ];
    let (remaining, packet) = packet(packet_contents).unwrap();
    let header = match packet.header {
        HeaderType::Request(h) => h,
        _ => panic!(),
    };
    assert_eq!(&b""[..], remaining);
    assert_eq!(Opcode::Add, header.opcode);
    assert_eq!(5, header.key_length);
    assert_eq!(8, header.extras_length);
    assert_eq!(18, header.body_length);
    assert_eq!(0, header.opaque);
    assert_eq!(0, header.cas);
    assert_eq!(&[0xde, 0xad, 0xbe, 0xef, 0x00, 0x00, 0x0e, 0x10][..], &packet.extras[..]);
    assert_eq!(&b"Hello"[..], &packet.key[..]);
    assert_eq!(&b"World"[..], &packet.body[..]);
}

#[test]
fn add_response_success() {
    let packet_contents: &[u8] = &[
        0x81, 0x02, 0x00, 0x00, 0x00, 0x00, 0x00, 0x00,
        0x00, 0x00, 0x00, 0x00, 0x00, 0x00, 0x00, 0x00,
        0x00, 0x00, 0x00, 0x00, 0x00, 0x00, 0x00, 0x01,
    ];
    let (remaining, packet) = packet(packet_contents).unwrap();
    let header = match packet.header {
        HeaderType::Response(h) => h,
        _ => panic!(),
    };
    assert_eq!(&b""[..], remaining);
    assert_eq!(Opcode::Add, header.opcode);
    assert_eq!(0, header.key_length);
    assert_eq!(0, header.extras_length);
    assert_eq!(ResponseStatus::NoError, header.status);
    assert_eq!(0, header.body_length);
    assert_eq!(0, header.opaque);
    assert_eq!(1, header.cas);
    assert_eq!(&b""[..], &packet.extras[..]);
    assert_eq!(&b""[..], &packet.key[..]);
    assert_eq!(&b""[..], &packet.body[..]);
}

#[test]
fn delete_request() {
    let packet_contents: &[u8] = &[
        0x80, 0x04, 0x00, 0x05, 0x00, 0x00, 0x00, 0x00,
        0x00, 0x00, 0x00, 0x05, 0x00, 0x00, 0x00, 0x00,
        0x00, 0x00, 0x00, 0x00, 0x00, 0x00, 0x00, 0x00,
        b'H', b'e', b'l', b'l', b'o',
    ];
    let (remaining, packet) = packet(packet_contents).unwrap();
    let header = match packet.header {
        HeaderType::Request(h) => h,
        _ => panic!(),
    };
    assert_eq!(&b""[..], remaining);
    assert_eq!(Opcode::Delete, header.opcode);
    assert_eq!(5, header.key_length);
    assert_eq!(0, header.extras_length);
    assert_eq!(5, header.body_length);
    assert_eq!(0, header.opaque);
    assert_eq!(0, header.cas);
    assert_eq!(&b""[..], &packet.extras[..]);
    assert_eq!(&b"Hello"[..], &packet.key[..]);
    assert_eq!(&b""[..], &packet.body[..]);
}

#[test]
fn increment_request() {
    let packet_contents: &[u8] = &[
        0x80, 0x05, 0x00, 0x07, 0x14, 0x00, 0x00, 0x00,
        0x00, 0x00, 0x00, 0x1b, 0x00, 0x00, 0x00, 0x00,
        0x00, 0x00, 0x00, 0x00, 0x00, 0x00, 0x00, 0x00,
        0x00, 0x00, 0x00, 0x00, 0x00, 0x00, 0x00, 0x01,
        0x00, 0x00, 0x00, 0x00, 0x00, 0x00, 0x00, 0x00,
        0x00, 0x00, 0x0e, 0x10, b'c', b'o', b'u', b'n',
        b't', b'e', b'r',
    ];
    let (remaining, packet) = packet(packet_contents).unwrap();
    let header = match packet.header {
        HeaderType::Request(h) => h,
        _ => panic!(),
    };
    assert_eq!(&b""[..], remaining);
    assert_eq!(Opcode::Increment, header.opcode);
    assert_eq!(7, header.key_length);
    assert_eq!(20, header.extras_length);
    assert_eq!(27, header.body_length);
    assert_eq!(0, header.opaque);
    assert_eq!(0, header.cas);
    assert_eq!(&[0x00, 0x00, 0x00, 0x00, 0x00, 0x00, 0x00, 0x01, 0x00, 0x00, 0x00, 0x00, 0x00, 0x00, 0x00, 0x00, 0x00, 0x00, 0x0e, 0x10][..], &packet.extras[..]);
    assert_eq!(&b"counter"[..], &packet.key[..]);
    assert_eq!(&b""[..], &packet.body[..]);
}

#[test]
fn increment_response() {
    let packet_contents: &[u8] = &[
        0x81, 0x05, 0x00, 0x00, 0x00, 0x00, 0x00, 0x00,
        0x00, 0x00, 0x00, 0x08, 0x00, 0x00, 0x00, 0x00,
        0x00, 0x00, 0x00, 0x00, 0x00, 0x00, 0x00, 0x05,
        0x00, 0x00, 0x00, 0x00, 0x00, 0x00, 0x00, 0x00,
    ];
    let (remaining, packet) = packet(packet_contents).unwrap();
    let header = match packet.header {
        HeaderType::Response(h) => h,
        _ => panic!(),
    };
    assert_eq!(&b""[..], remaining);
    assert_eq!(Opcode::Increment, header.opcode);
    assert_eq!(0, header.key_length);
    assert_eq!(0, header.extras_length);
    assert_eq!(ResponseStatus::NoError, header.status);
    assert_eq!(8, header.body_length);
    assert_eq!(0, header.opaque);
    assert_eq!(5, header.cas);
    assert_eq!(&b""[..], &packet.extras[..]);
    assert_eq!(&b""[..], &packet.key[..]);
    assert_eq!(&[0x00, 0x00, 0x00, 0x00, 0x00, 0x00, 0x00, 0x00][..], &packet.body[..]);
}

#[test]
fn quit_request() {
    let packet_contents: &[u8] = &[
        0x80, 0x07, 0x00, 0x00, 0x00, 0x00, 0x00, 0x00,
        0x00, 0x00, 0x00, 0x00, 0x00, 0x00, 0x00, 0x00,
        0x00, 0x00, 0x00, 0x00, 0x00, 0x00, 0x00, 0x00,
    ];
    let (remaining, packet) = packet(packet_contents).unwrap();
    let header = match packet.header {
        HeaderType::Request(h) => h,
        _ => panic!(),
    };
    assert_eq!(&b""[..], remaining);
    assert_eq!(Opcode::Quit, header.opcode);
    assert_eq!(0, header.key_length);
    assert_eq!(0, header.extras_length);
    assert_eq!(0, header.body_length);
    assert_eq!(0, header.opaque);
    assert_eq!(0, header.cas);
    assert_eq!(&b""[..], &packet.extras[..]);
    assert_eq!(&b""[..], &packet.key[..]);
    assert_eq!(&b""[..], &packet.body[..]);
}

#[test]
fn flush_request() {
    let packet_contents: &[u8] = &[
        0x80, 0x08, 0x00, 0x00, 0x04, 0x00, 0x00, 0x00,
        0x00, 0x00, 0x00, 0x04, 0x00, 0x00, 0x00, 0x00,
        0x00, 0x00, 0x00, 0x00, 0x00, 0x00, 0x00, 0x00,
        0x00, 0x00, 0x0e, 0x10,
    ];
    let (remaining, packet) = packet(packet_contents).unwrap();
    let header = match packet.header {
        HeaderType::Request(h) => h,
        _ => panic!(),
    };
    assert_eq!(&b""[..], remaining);
    assert_eq!(Opcode::Flush, header.opcode);
    assert_eq!(0, header.key_length);
    assert_eq!(4, header.extras_length);
    assert_eq!(4, header.body_length);
    assert_eq!(0, header.opaque);
    assert_eq!(0, header.cas);
    assert_eq!(&[0x00, 0x00, 0x0e, 0x10][..], &packet.extras[..]);
    assert_eq!(&b""[..], &packet.key[..]);
    assert_eq!(&b""[..], &packet.body[..]);
}

#[test]
fn noop_request() {
    let packet_contents: &[u8] = &[
        0x80, 0x0a, 0x00, 0x00, 0x00, 0x00, 0x00, 0x00,
        0x00, 0x00, 0x00, 0x00, 0x00, 0x00, 0x00, 0x00,
        0x00, 0x00, 0x00, 0x00, 0x00, 0x00, 0x00, 0x00,
    ];
    let (remaining, packet) = packet(packet_contents).unwrap();
    let header = match packet.header {
        HeaderType::Request(h) => h,
        _ => panic!(),
    };
    assert_eq!(&b""[..], remaining);
    assert_eq!(Opcode::Noop, header.opcode);
    assert_eq!(0, header.key_length);
    assert_eq!(0, header.extras_length);
    assert_eq!(0, header.body_length);
    assert_eq!(0, header.opaque);
    assert_eq!(0, header.cas);
    assert_eq!(&b""[..], &packet.extras[..]);
    assert_eq!(&b""[..], &packet.key[..]);
    assert_eq!(&b""[..], &packet.body[..]);
}

#[test]
fn version_request() {
    let packet_contents: &[u8] = &[
        0x80, 0x0b, 0x00, 0x00, 0x00, 0x00, 0x00, 0x00,
        0x00, 0x00, 0x00, 0x00, 0x00, 0x00, 0x00, 0x00,
        0x00, 0x00, 0x00, 0x00, 0x00, 0x00, 0x00, 0x00,
    ];
    let (remaining, packet) = packet(packet_contents).unwrap();
    let header = match packet.header {
        HeaderType::Request(h) => h,
        _ => panic!(),
    };
    assert_eq!(&b""[..], remaining);
    assert_eq!(Opcode::Version, header.opcode);
    assert_eq!(0, header.key_length);
    assert_eq!(0, header.extras_length);
    assert_eq!(0, header.body_length);
    assert_eq!(0, header.opaque);
    assert_eq!(0, header.cas);
    assert_eq!(&b""[..], &packet.extras[..]);
    assert_eq!(&b""[..], &packet.key[..]);
    assert_eq!(&b""[..], &packet.body[..]);
}

#[test]
fn version_response() {
    let packet_contents: &[u8] = &[
        0x81, 0x0b, 0x00, 0x00, 0x00, 0x00, 0x00, 0x00,
        0x00, 0x00, 0x00, 0x05, 0x00, 0x00, 0x00, 0x00,
        0x00, 0x00, 0x00, 0x00, 0x00, 0x00, 0x00, 0x00,
        b'1', b'.', b'3', b'.', b'1',
    ];
    let (remaining, packet) = packet(packet_contents).unwrap();
    let header = match packet.header {
        HeaderType::Response(h) => h,
        _ => panic!(),
    };
    assert_eq!(&b""[..], remaining);
    assert_eq!(Opcode::Version, header.opcode);
    assert_eq!(0, header.key_length);
    assert_eq!(0, header.extras_length);
    assert_eq!(ResponseStatus::NoError, header.status);
    assert_eq!(5, header.body_length);
    assert_eq!(0, header.opaque);
    assert_eq!(0, header.cas);
    assert_eq!(&b""[..], &packet.extras[..]);
    assert_eq!(&b""[..], &packet.key[..]);
    assert_eq!(&b"1.3.1"[..], &packet.body[..]);
}

#[test]
fn append_request() {
    let packet_contents: &[u8] = &[
        0x80, 0x0e, 0x00, 0x05, 0x00, 0x00, 0x00, 0x00,
        0x00, 0x00, 0x00, 0x06, 0x00, 0x00, 0x00, 0x00,
        0x00, 0x00, 0x00, 0x00, 0x00, 0x00, 0x00, 0x00,
        b'H', b'e', b'l', b'l', b'o', b'!',
    ];
    let (remaining, packet) = packet(packet_contents).unwrap();
    let header = match packet.header {
        HeaderType::Request(h) => h,
        _ => panic!(),
    };
    assert_eq!(&b""[..], remaining);
    assert_eq!(Opcode::Append, header.opcode);
    assert_eq!(5, header.key_length);
    assert_eq!(0, header.extras_length);
    assert_eq!(6, header.body_length);
    assert_eq!(0, header.opaque);
    assert_eq!(0, header.cas);
    assert_eq!(&b""[..], &packet.extras[..]);
    assert_eq!(&b"Hello"[..], &packet.key[..]);
    assert_eq!(&b"!"[..], &packet.body[..]);
}

#[test]
fn stat_request() {
    let packet_contents: &[u8] = &[
        0x80, 0x10, 0x00, 0x00, 0x00, 0x00, 0x00, 0x00,
        0x00, 0x00, 0x00, 0x00, 0x00, 0x00, 0x00, 0x00,
        0x00, 0x00, 0x00, 0x00, 0x00, 0x00, 0x00, 0x00,
    ];
    let (remaining, packet) = packet(packet_contents).unwrap();
    let header = match packet.header {
        HeaderType::Request(h) => h,
        _ => panic!(),
    };
    assert_eq!(&b""[..], remaining);
    assert_eq!(Opcode::Stat, header.opcode);
    assert_eq!(0, header.key_length);
    assert_eq!(0, header.extras_length);
    assert_eq!(0, header.body_length);
    assert_eq!(0, header.opaque);
    assert_eq!(0, header.cas);
    assert_eq!(&b""[..], &packet.extras[..]);
    assert_eq!(&b""[..], &packet.key[..]);
    assert_eq!(&b""[..], &packet.body[..]);
}

#[test]
fn stat_response() {
    let packet_contents: &[u8] = &[
        0x81, 0x10, 0x00, 0x03, 0x00, 0x00, 0x00, 0x00,
        0x00, 0x00, 0x00, 0x07, 0x00, 0x00, 0x00, 0x00,
        0x00, 0x00, 0x00, 0x00, 0x00, 0x00, 0x00, 0x00,
        b'p', b'i', b'd', b'3', b'0', b'7', b'8',
    ];
    let (remaining, packet) = packet(packet_contents).unwrap();
    let header = match packet.header {
        HeaderType::Response(h) => h,
        _ => panic!(),
    };
    assert_eq!(&b""[..], remaining);
    assert_eq!(Opcode::Stat, header.opcode);
    assert_eq!(3, header.key_length);
    assert_eq!(0, header.extras_length);
    assert_eq!(ResponseStatus::NoError, header.status);
    assert_eq!(7, header.body_length);
    assert_eq!(0, header.opaque);
    assert_eq!(0, header.cas);
    assert_eq!(&b""[..], &packet.extras[..]);
    assert_eq!(&b"pid"[..], &packet.key[..]);
    assert_eq!(&b"3078"[..], &packet.body[..]);
}
