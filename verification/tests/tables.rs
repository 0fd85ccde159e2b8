//! The code tables and the length accessors.

use memcache_protocol::{
    DataType, Header, HeaderType, Magic, Opcode, RequestHeader, ResponseHeader, ResponseStatus,
};

#[test]
fn opcode_table() {
    let table = [
        (0x00u8, Opcode::Get),
        (0x01, Opcode::Store),
        (0x02, Opcode::Add),
        (0x03, Opcode::Replace),
        (0x04, Opcode::Delete),
        (0x05, Opcode::Increment),
        (0x06, Opcode::Decrement),
        (0x07, Opcode::Quit),
        (0x08, Opcode::Flush),
        (0x09, Opcode::GetQ),
        (0x0a, Opcode::Noop),
        (0x0b, Opcode::Version),
        (0x0c, Opcode::GetK),
        (0x0d, Opcode::GetKQ),
        (0x0e, Opcode::Append),
        (0x0f, Opcode::Prepend),
        (0x10, Opcode::Stat),
        (0x11, Opcode::SetQ),
        (0x12, Opcode::AddQ),
        (0x13, Opcode::ReplaceQ),
        (0x14, Opcode::DeleteQ),
        (0x15, Opcode::IncrementQ),
        (0x16, Opcode::DecrementQ),
        (0x17, Opcode::QuitQ),
        (0x18, Opcode::FlushQ),
        (0x19, Opcode::AppendQ),
        (0x1a, Opcode::PrependQ),
    ];
    assert_eq!(table.len(), 27);
    for (byte, opcode) in table {
        assert_eq!(Opcode::from_u8(byte), Some(opcode));
        assert_eq!(opcode.to_u8(), byte);
    }
}

#[test]
fn bytes_above_the_opcode_table() {
    for byte in 0x1bu8..=0xff {
        assert_eq!(Opcode::from_u8(byte), None);
    }
}

#[test]
fn status_table() {
    let table = [
        (0x0000u16, ResponseStatus::NoError),
        (0x0001, ResponseStatus::KeyNotFound),
        (0x0002, ResponseStatus::KeyExists),
        (0x0003, ResponseStatus::ValueTooLarge),
        (0x0004, ResponseStatus::InvalidArguements),
        (0x0005, ResponseStatus::NotStored),
        (0x0006, ResponseStatus::NonNumeric),
        (0x0007, ResponseStatus::WrongServer),
        (0x0008, ResponseStatus::AuthenticationError),
        (0x0009, ResponseStatus::AuthenticationContinue),
        (0x0081, ResponseStatus::UnknownCommand),
        (0x0082, ResponseStatus::OutOfMemory),
        (0x0083, ResponseStatus::NotSupported),
        (0x0084, ResponseStatus::InternalError),
        (0x0085, ResponseStatus::Busy),
        (0x0086, ResponseStatus::TemporaryFailure),
    ];
    assert_eq!(table.len(), 16);
    for (code, status) in table {
        assert_eq!(ResponseStatus::from_u16(code), Some(status));
        assert_eq!(status.to_u16(), code);
    }
}

#[test]
fn values_outside_the_status_table() {
    let mut known = 0;
    for code in 0u16..=0xffff {
        match ResponseStatus::from_u16(code) {
            Some(status) => {
                known += 1;
                assert_eq!(status.to_u16(), code);
            }
            None => assert!((0x000a..=0x0080).contains(&code) || code >= 0x0087),
        }
    }
    assert_eq!(known, 16);
    assert_eq!(ResponseStatus::from_u16(0x000a), None);
    assert_eq!(ResponseStatus::from_u16(0x0080), None);
    assert_eq!(ResponseStatus::from_u16(0x0087), None);
    assert_eq!(ResponseStatus::from_u16(0x0100), None);
}

#[test]
fn magic_bytes() {
    assert_eq!(Magic::from_u8(0x80), Some(Magic::Request));
    assert_eq!(Magic::from_u8(0x81), Some(Magic::Response));
    assert_eq!(Magic::from_u8(0x00), None);
    assert_eq!(Magic::from_u8(0x7f), None);
    assert_eq!(Magic::from_u8(0x82), None);
    assert_eq!(Magic::Request.to_u8(), 0x80);
    assert_eq!(Magic::Response.to_u8(), 0x81);
}

#[test]
fn raw_is_the_only_data_type() {
    assert_eq!(DataType::from_u8(0x00), Some(DataType::Raw));
    for byte in 1u8..=255 {
        assert_eq!(DataType::from_u8(byte), None);
    }
    assert_eq!(DataType::Raw.to_u8(), 0x00);
}

#[test]
fn lengths_of_a_request_header() {
    let h = HeaderType::Request(RequestHeader {
        opcode: Opcode::Increment,
        key_length: 7,
        extras_length: 20,
        data_type: DataType::Raw,
        vbucket_id: 0,
        body_length: 27,
        opaque: 0,
        cas: 0,
    });
    assert_eq!(h.extras_length(), 20);
    assert_eq!(h.key_length(), 7);
    assert_eq!(h.body_length(), 0);
}

#[test]
fn lengths_of_a_response_header() {
    let h = HeaderType::Response(ResponseHeader {
        opcode: Opcode::GetK,
        key_length: 5,
        extras_length: 4,
        data_type: DataType::Raw,
        status: ResponseStatus::NoError,
        body_length: 14,
        opaque: 0,
        cas: 1,
    });
    assert_eq!(h.extras_length(), 4);
    assert_eq!(h.key_length(), 5);
    assert_eq!(h.body_length(), 5);
}

#[test]
fn lengths_at_their_limits() {
    let h = HeaderType::Response(ResponseHeader {
        opcode: Opcode::Get,
        key_length: u16::MAX,
        extras_length: u8::MAX,
        data_type: DataType::Raw,
        status: ResponseStatus::NoError,
        body_length: u32::MAX,
        opaque: 0,
        cas: 0,
    });
    assert_eq!(h.extras_length(), 255);
    assert_eq!(h.key_length(), 65535);
    assert_eq!(h.body_length(), 4_294_967_295 - 65_535 - 255);
}
