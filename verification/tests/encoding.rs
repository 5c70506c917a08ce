use mqtt_encoder::types::str::Str;
use mqtt_encoder::types::var_int::VarInt;
use mqtt_encoder::types::ControlPacket;
use mqtt_encoder::types::ControlPacketKind;
use mqtt_encoder::types::Connect;
use mqtt_encoder::types::ConnectProperty;
use mqtt_encoder::types::Publish;
use mqtt_encoder::types::QoS;
use mqtt_encoder::types::Will;
use mqtt_encoder::types::{push, push1, push2};

/// Plain continuation-bit decoder used to check round trips.
fn decode_var_int(bytes: &[u8]) -> u32 {
    let mut value: u32 = 0;
    let mut multiplier: u32 = 1;
    for b in bytes {
        value += u32::from(b & 0x7f) * multiplier;
        multiplier *= 128;
    }
    value
}

fn var_int_encoding(m: u32) -> Vec<u8> {
    let v = VarInt::try_new(m).unwrap();
    let mut out = Vec::new();
    v.write_to(&mut out);
    out
}

#[test]
fn var_int_round_trip_samples() {
    for m in [
        0u32, 1, 64, 127, 128, 129, 16383, 16384, 99999, 2097151, 2097152, 268435454, 268435455,
    ] {
        let bytes = var_int_encoding(m);
        assert_eq!(decode_var_int(&bytes), m);
    }
}

#[test]
fn var_int_construction_fails_past_maximum() {
    assert!(VarInt::try_new(268435455).is_ok());
    assert!(VarInt::try_new(268435456).is_err());
    assert!(VarInt::try_from_usize(268435455).is_ok());
    assert!(VarInt::try_from_usize(268435456).is_err());
}

#[test]
fn var_int_byte_count_boundaries() {
    assert_eq!(var_int_encoding(0).len(), 1);
    assert_eq!(var_int_encoding(127).len(), 1);
    assert_eq!(var_int_encoding(128).len(), 2);
    assert_eq!(var_int_encoding(16383).len(), 2);
    assert_eq!(var_int_encoding(16384).len(), 3);
    assert_eq!(var_int_encoding(2097151).len(), 3);
    assert_eq!(var_int_encoding(2097152).len(), 4);
    assert_eq!(var_int_encoding(268435455).len(), 4);
}

#[test]
fn var_int_exact_bytes() {
    assert_eq!(var_int_encoding(0), vec![0x00]);
    assert_eq!(var_int_encoding(127), vec![0x7f]);
    assert_eq!(var_int_encoding(128), vec![0x80, 0x01]);
    assert_eq!(var_int_encoding(16383), vec![0xff, 0x7f]);
    assert_eq!(var_int_encoding(268435455), vec![0xff, 0xff, 0xff, 0x7f]);
}

#[test]
fn string_of_65535_bytes_encodes_with_full_prefix() {
    let text = "x".repeat(65535);
    let s = Str::try_new(&text).unwrap();
    assert_eq!(s.len(), 65535);
    let mut out = Vec::new();
    s.write_to(&mut out);
    assert_eq!(out.len(), 2 + 65535);
    assert_eq!(out[0], 0xff);
    assert_eq!(out[1], 0xff);
    assert_eq!(&out[2..], text.as_bytes());
}

#[test]
fn string_of_65536_bytes_is_rejected() {
    let text = "x".repeat(65536);
    assert!(Str::try_new(&text).is_err());
}

#[test]
fn string_encoding_prefix_is_big_endian() {
    let s = Str::from_static("abc");
    assert_eq!(s.len(), 3);
    let mut out = Vec::new();
    s.write_to(&mut out);
    assert_eq!(out, vec![0x00, 0x03, b'a', b'b', b'c']);
}

#[test]
fn bit_packer_chain() {
    // bits 1, 0, 1, then the 2-bit field 0b11, then bit 0: six bits in
    // all, so the accumulator holds 0b101110.
    let mut acc: u8 = 0;
    acc = push(acc, true);
    acc = push(acc, false);
    acc = push(acc, true);
    acc = push2(acc, 0b11);
    acc = push(acc, false);
    assert_eq!(acc, 0b101110);
}

#[test]
fn bit_packer_masks_field_values() {
    // push1 keeps only the low bit, push2 only the low two bits.
    assert_eq!(push1(0, 0xff), 1);
    assert_eq!(push2(0, 0xff), 3);
    assert_eq!(push(0b1, false), 0b10);
}

#[test]
fn connect_flags_field_order() {
    // username, password, will-retain, will-QoS (2 bits), will-flag,
    // clean-start, reserved — most-significant bit first.
    let connect = Connect {
        clean_start: false,
        will: Some(Will { message: Str::from_static("bye"), qos: QoS::QoS2, retain: true }),
        username: Some(Str::from_static("u")),
        password: None,
        keep_alive: 0,
        client_id: Str::from_static("c"),
    };
    // 1 0 1 10 1 0 0
    assert_eq!(connect.connect_flags(), 0b10110100);
}

#[test]
fn publish_flags_field_order() {
    // dup, QoS (2 bits), retain — most-significant bit first.
    let publish = Publish {
        dup: true,
        qos: QoS::QoS1,
        identifier: 7,
        retain: false,
        topic: Str::from_static("t"),
        message: &[],
    };
    // 1 01 0
    assert_eq!(publish.flags(), 0b1010);
}

#[test]
fn publish_fixed_header_byte() {
    let publish = Publish {
        dup: true,
        qos: QoS::QoS1,
        identifier: 7,
        retain: false,
        topic: Str::from_static("t"),
        message: &[],
    };
    let mut out = Vec::new();
    publish.write_to(&mut out).unwrap();
    // packet-type code 3 in the high nibble, flags 0b1010 in the low one
    assert_eq!(out[0], (3 << 4) | 0b1010);
}

#[test]
fn connect_end_to_end() {
    let connect = Connect {
        clean_start: true,
        will: None,
        username: None,
        password: None,
        keep_alive: 60,
        client_id: Str::from_static("muecke"),
    };
    let mut out = Vec::new();
    connect.write_to(&mut out).unwrap();
    let expected: Vec<u8> = vec![
        0x10, // fixed header: CONNECT, flags 0
        19,   // remaining length
        0x00, 0x04, b'M', b'Q', b'T', b'T', // protocol name
        0x05, // protocol version
        0x02, // connect flags: only clean-start set
        0x00, 0x3c, // keep alive 60
        0x00, // property length
        0x00, 0x06, b'm', b'u', b'e', b'c', b'k', b'e', // client id
    ];
    assert_eq!(out, expected);
}

#[test]
fn publish_end_to_end_qos0_omits_identifier() {
    let publish = Publish {
        dup: false,
        qos: QoS::QoS0,
        identifier: 0,
        retain: false,
        topic: Str::from_static("a/b"),
        message: &[0x01, 0x02],
    };
    let mut out = Vec::new();
    publish.write_to(&mut out).unwrap();
    let expected: Vec<u8> = vec![
        0x30, // fixed header: PUBLISH, flags 0
        8,    // remaining length
        0x00, 0x03, b'a', b'/', b'b', // topic
        0x00, // property length; no identifier for QoS 0
        0x01, 0x02, // payload, unmodified
    ];
    assert_eq!(out, expected);
}

#[test]
fn publish_qos2_carries_identifier() {
    let publish = Publish {
        dup: false,
        qos: QoS::QoS2,
        identifier: 0x1234,
        retain: true,
        topic: Str::from_static("t"),
        message: &[9],
    };
    let mut out = Vec::new();
    publish.write_to(&mut out).unwrap();
    let expected: Vec<u8> = vec![
        0x35, // fixed header: PUBLISH, flags 0b0101 (QoS 2, retain)
        7,    // remaining length
        0x00, 0x01, b't', // topic
        0x12, 0x34, // packet identifier, big-endian
        0x00, // property length
        9,    // payload
    ];
    assert_eq!(out, expected);
}

#[test]
fn encoding_is_idempotent() {
    let connect = Connect {
        clean_start: true,
        will: Some(Will { message: Str::from_static("gone"), qos: QoS::QoS1, retain: false }),
        username: Some(Str::from_static("user")),
        password: Some(Str::from_static("pass")),
        keep_alive: 30,
        client_id: Str::from_static("id"),
    };
    let mut first = Vec::new();
    connect.write_to(&mut first).unwrap();
    let mut second = Vec::new();
    connect.write_to(&mut second).unwrap();
    assert_eq!(first, second);

    let payload = vec![0u8; 100];
    let publish = Publish {
        dup: true,
        qos: QoS::QoS2,
        identifier: 77,
        retain: true,
        topic: Str::from_static("x/y/z"),
        message: &payload,
    };
    let mut first = Vec::new();
    publish.write_to(&mut first).unwrap();
    let mut second = Vec::new();
    publish.write_to(&mut second).unwrap();
    assert_eq!(first, second);
}

#[test]
fn packet_kind_codes() {
    let kinds = [
        ControlPacketKind::Reserved,
        ControlPacketKind::Connect,
        ControlPacketKind::ConnAck,
        ControlPacketKind::Publish,
        ControlPacketKind::PubAck,
        ControlPacketKind::PubRec,
        ControlPacketKind::PubRel,
        ControlPacketKind::PubComp,
        ControlPacketKind::Subscribe,
        ControlPacketKind::SubAck,
        ControlPacketKind::Unsubscribe,
        ControlPacketKind::UnsubAck,
        ControlPacketKind::PingReq,
        ControlPacketKind::PingResp,
        ControlPacketKind::Disconnect,
        ControlPacketKind::Auth,
    ];
    for (i, kind) in kinds.iter().enumerate() {
        assert_eq!(kind.code(), i as u8);
    }
}

#[test]
fn connect_property_codes() {
    assert_eq!(ConnectProperty::SessionExpiryInterval.code(), 0x11);
    assert_eq!(ConnectProperty::ReceiveMaximum.code(), 0x21);
    assert_eq!(ConnectProperty::MaximumPacketSize.code(), 0x27);
    assert_eq!(ConnectProperty::TopicAliasMaximum.code(), 0x22);
    assert_eq!(ConnectProperty::RequestResponseInformation.code(), 0x19);
    assert_eq!(ConnectProperty::RequestProblemInformation.code(), 0x17);
    assert_eq!(ConnectProperty::UserProperty.code(), 0x26);
    assert_eq!(ConnectProperty::AuthenticationMethod.code(), 0x15);
    assert_eq!(ConnectProperty::AuthenticationData.code(), 0x16);
}
