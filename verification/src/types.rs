//! Control-packet descriptions and their wire encoders: the bit-flag
//! packer, the shared two-section framing algorithm, and the CONNECT and
//! PUBLISH packet encoders.

use vstd::prelude::*;

pub mod str;
pub mod var_int;

pub use self::str::Str;

verus! {

use crate::types::str::str_encoding;
use crate::types::var_int::{VarInt, var_int_bytes, MAX_VAR_INT};
use vstd::string::StringSliceAdditionalSpecFns;
use vstd::utf8::{is_ascii_chars, is_ascii_chars_encode_utf8};

/// A size invariant was violated: a string longer than 65535 bytes, or
/// buffered frame content longer than 268435455 bytes.
#[derive(Debug, PartialEq, Eq, Structural, Clone, Copy)]
pub struct RangeError;

/// Bit-flag packer: pushes a single bit onto the accumulator,
/// most-significant bit first.
pub open spec fn spec_push(flags: u8, value: bool) -> u8 {
    spec_push1(flags, if value { 1 } else { 0 })
}

/// Bit-flag packer: shifts the accumulator left by one and ors in the low
/// bit of `value`.
pub open spec fn spec_push1(flags: u8, value: u8) -> u8 {
    (((flags * 2) % 256) + (value % 2)) as u8
}

/// Bit-flag packer: shifts the accumulator left by two and ors in the low
/// two bits of `value`.
pub open spec fn spec_push2(flags: u8, value: u8) -> u8 {
    (((flags * 4) % 256) + (value % 4)) as u8
}

/// Pushes a single bit onto the 8-bit accumulator `flags`.
pub fn push(flags: u8, value: bool) -> (r: u8)
    ensures
        r == spec_push(flags, value),
{
    push1(flags, if value { 1 } else { 0 })
}

/// Pushes the low bit of `value` onto the 8-bit accumulator `flags`.
pub fn push1(flags: u8, value: u8) -> (r: u8)
    ensures
        r == spec_push1(flags, value),
{
    let shifted: u16 = (flags as u16) * 2 % 256;
    (shifted + (value as u16) % 2) as u8
}

/// Pushes the low two bits of `value` onto the 8-bit accumulator `flags`.
pub fn push2(flags: u8, value: u8) -> (r: u8)
    ensures
        r == spec_push2(flags, value),
{
    let shifted: u16 = (flags as u16) * 4 % 256;
    (shifted + (value as u16) % 4) as u8
}

/// The packer's arithmetic form agrees with its bit-level reading: each
/// push shifts the accumulator left by the field's width and ors in the
/// field value masked to its width.
pub proof fn lemma_push1_bits(flags: u8, value: u8)
    ensures
        spec_push1(flags, value) == ((flags << 1u8) | (value & 1u8)),
{
    assert((((flags * 2) % 256) + (value % 2)) as u8 == ((flags << 1u8) | (value & 1u8)))
        by (bit_vector);
}

/// The two-bit form of [`lemma_push1_bits`].
pub proof fn lemma_push2_bits(flags: u8, value: u8)
    ensures
        spec_push2(flags, value) == ((flags << 2u8) | (value & 3u8)),
{
    assert((((flags * 4) % 256) + (value % 4)) as u8 == ((flags << 2u8) | (value & 3u8)))
        by (bit_vector);
}

/// The fixed header byte holds the packet-type code shifted into the high
/// nibble, ored with the flags masked to the low nibble.
pub proof fn lemma_fixed_header_bits(code: u8, flags: u8)
    requires
        code <= 15,
    ensures
        (code * 16 + flags % 16) as u8 == ((code << 4u8) | (flags & 0xfu8)),
{
    assert((code * 16 + flags % 16) as u8 == ((code << 4u8) | (flags & 0xfu8))) by (bit_vector)
        requires
            code <= 15,
    ;
}

/// A 16-bit value on the wire: big-endian, high byte first.
pub open spec fn u16_be_bytes(v: u16) -> Seq<u8> {
    seq![(v / 256) as u8, (v % 256) as u8]
}

/// Appends `v` to `writer` as 2 big-endian bytes.
fn write_u16_be(writer: &mut Vec<u8>, v: u16)
    ensures
        final(writer)@ == old(writer)@ + u16_be_bytes(v),
{
    writer.push((v / 256) as u8);
    writer.push((v % 256) as u8);
    proof {
        assert(writer@ =~= old(writer)@ + u16_be_bytes(v));
    }
}

/// Appends a property-length field of 0 — an empty property section —
/// which the variable-length integer codec encodes as the single byte 0.
fn write_property_length_zero(writer: &mut Vec<u8>)
    ensures
        final(writer)@ == old(writer)@ + seq![0u8],
{
    if let Ok(property_length) = VarInt::try_new(0) {
        property_length.write_to(writer);
        proof {
            assert(writer@ =~= old(writer)@ + seq![0u8]);
        }
    } else {
        proof {
            assert(false);
        }
    }
}

/// The 16 control-packet type codes, each a 4-bit value placed in the
/// high nibble of the fixed header byte.
#[derive(Debug, Clone, Copy, PartialEq, Eq, Structural)]
pub enum ControlPacketKind {
    /// Reserved
    Reserved,
    /// Connection request
    Connect,
    /// Connect acknowledgment
    ConnAck,
    /// Publish message
    Publish,
    /// Publish acknowledgment (QoS 1)
    PubAck,
    /// Publish received (QoS 2 delivery part 1)
    PubRec,
    /// Publish release (QoS 2 delivery part 2)
    PubRel,
    /// Publish complete (QoS 2 delivery part 3)
    PubComp,
    /// Subscribe request
    Subscribe,
    /// Subscribe acknowledgment
    SubAck,
    /// Unsubscribe request
    Unsubscribe,
    /// Unsubscribe acknowledgment
    UnsubAck,
    /// PING request
    PingReq,
    /// PING response
    PingResp,
    /// Disconnect notification
    Disconnect,
    /// Authentication exchange
    Auth,
}

impl ControlPacketKind {
    /// The 4-bit packet-type code.
    pub open spec fn spec_code(self) -> u8 {
        match self {
            ControlPacketKind::Reserved => 0,
            ControlPacketKind::Connect => 1,
            ControlPacketKind::ConnAck => 2,
            ControlPacketKind::Publish => 3,
            ControlPacketKind::PubAck => 4,
            ControlPacketKind::PubRec => 5,
            ControlPacketKind::PubRel => 6,
            ControlPacketKind::PubComp => 7,
            ControlPacketKind::Subscribe => 8,
            ControlPacketKind::SubAck => 9,
            ControlPacketKind::Unsubscribe => 10,
            ControlPacketKind::UnsubAck => 11,
            ControlPacketKind::PingReq => 12,
            ControlPacketKind::PingResp => 13,
            ControlPacketKind::Disconnect => 14,
            ControlPacketKind::Auth => 15,
        }
    }

    /// Returns the 4-bit packet-type code.
    pub fn code(&self) -> (r: u8)
        ensures
            r == self.spec_code(),
            r <= 15,
    {
        match self {
            ControlPacketKind::Reserved => 0,
            ControlPacketKind::Connect => 1,
            ControlPacketKind::ConnAck => 2,
            ControlPacketKind::Publish => 3,
            ControlPacketKind::PubAck => 4,
            ControlPacketKind::PubRec => 5,
            ControlPacketKind::PubRel => 6,
            ControlPacketKind::PubComp => 7,
            ControlPacketKind::Subscribe => 8,
            ControlPacketKind::SubAck => 9,
            ControlPacketKind::Unsubscribe => 10,
            ControlPacketKind::UnsubAck => 11,
            ControlPacketKind::PingReq => 12,
            ControlPacketKind::PingResp => 13,
            ControlPacketKind::Disconnect => 14,
            ControlPacketKind::Auth => 15,
        }
    }
}

/// Delivery-guarantee level, a 2-bit value.
#[derive(Debug, Clone, Copy, PartialEq, Eq, Structural)]
pub enum QoS {
    /// At most once
    QoS0,
    /// At least once
    QoS1,
    /// Exactly once
    QoS2,
}

impl QoS {
    /// The 2-bit level code.
    pub open spec fn spec_code(self) -> u8 {
        match self {
            QoS::QoS0 => 0,
            QoS::QoS1 => 1,
            QoS::QoS2 => 2,
        }
    }

    /// Returns the 2-bit level code.
    pub fn code(&self) -> (r: u8)
        ensures
            r == self.spec_code(),
            r <= 2,
    {
        match self {
            QoS::QoS0 => 0,
            QoS::QoS1 => 1,
            QoS::QoS2 => 2,
        }
    }
}

/// The property identifiers a CONNECT packet may carry. Only the
/// identifier codes are defined; no property values are encoded.
#[derive(Debug, Clone, Copy, PartialEq, Eq, Structural)]
pub enum ConnectProperty {
    SessionExpiryInterval,
    ReceiveMaximum,
    MaximumPacketSize,
    TopicAliasMaximum,
    RequestResponseInformation,
    RequestProblemInformation,
    UserProperty,
    AuthenticationMethod,
    AuthenticationData,
}

impl ConnectProperty {
    /// The property-identifier code.
    pub open spec fn spec_code(self) -> u8 {
        match self {
            ConnectProperty::SessionExpiryInterval => 0x11,
            ConnectProperty::ReceiveMaximum => 0x21,
            ConnectProperty::MaximumPacketSize => 0x27,
            ConnectProperty::TopicAliasMaximum => 0x22,
            ConnectProperty::RequestResponseInformation => 0x19,
            ConnectProperty::RequestProblemInformation => 0x17,
            ConnectProperty::UserProperty => 0x26,
            ConnectProperty::AuthenticationMethod => 0x15,
            ConnectProperty::AuthenticationData => 0x16,
        }
    }

    /// Returns the property-identifier code.
    pub fn code(&self) -> (r: u8)
        ensures
            r == self.spec_code(),
    {
        match self {
            ConnectProperty::SessionExpiryInterval => 0x11,
            ConnectProperty::ReceiveMaximum => 0x21,
            ConnectProperty::MaximumPacketSize => 0x27,
            ConnectProperty::TopicAliasMaximum => 0x22,
            ConnectProperty::RequestResponseInformation => 0x19,
            ConnectProperty::RequestProblemInformation => 0x17,
            ConnectProperty::UserProperty => 0x26,
            ConnectProperty::AuthenticationMethod => 0x15,
            ConnectProperty::AuthenticationData => 0x16,
        }
    }
}

/// The full frame for a packet: the fixed header byte holding the
/// packet-type code in its high nibble and the flags in its low nibble,
/// the remaining-length encoding of the content's byte count, then the
/// content itself.
pub open spec fn frame_bytes(kind: ControlPacketKind, flags: u8, content: Seq<u8>) -> Seq<u8>
    recommends
        content.len() <= MAX_VAR_INT,
{
    seq![(kind.spec_code() * 16 + flags % 16) as u8] + var_int_bytes(content.len()) + content
}

/// The contract every packet kind satisfies: it exposes a packet-type
/// code, a flags nibble, and the two content-producing steps (variable
/// header and payload); the shared [`ControlPacket::write_to`] turns them
/// into one frame.
pub trait ControlPacket {
    /// The packet-type code of this packet kind.
    spec fn spec_kind() -> ControlPacketKind;

    /// The flags nibble of this packet value.
    spec fn spec_flags(&self) -> u8;

    /// The bytes of the variable header.
    spec fn spec_variable_header(&self) -> Seq<u8>;

    /// The bytes of the payload.
    spec fn spec_payload(&self) -> Seq<u8>;

    /// Returns the packet-type code of this packet kind.
    fn kind() -> (k: ControlPacketKind)
        ensures
            k == Self::spec_kind(),
    ;

    /// Returns the flags placed in the low nibble of the fixed header.
    fn flags(&self) -> (f: u8)
        ensures
            f == self.spec_flags(),
    ;

    /// Appends the variable header to `writer`.
    fn write_variable_header_to(&self, writer: &mut Vec<u8>)
        ensures
            final(writer)@ == old(writer)@ + self.spec_variable_header(),
    ;

    /// Appends the payload to `writer`.
    fn write_payload_to(&self, writer: &mut Vec<u8>)
        ensures
            final(writer)@ == old(writer)@ + self.spec_payload(),
    ;

    /// Encodes the whole frame and appends it to `writer`: the variable
    /// header and the payload are buffered first, because the
    /// remaining-length field precedes the content it measures. Fails,
    /// leaving `writer` untouched, exactly when the buffered content
    /// exceeds the largest remaining length.
    fn write_to(&self, writer: &mut Vec<u8>) -> (r: Result<(), RangeError>)
        ensures
            match r {
                Ok(()) => (self.spec_variable_header() + self.spec_payload()).len() <= MAX_VAR_INT
                    && final(writer)@ == old(writer)@ + frame_bytes(
                    Self::spec_kind(),
                    self.spec_flags(),
                    self.spec_variable_header() + self.spec_payload(),
                ),
                Err(_) => (self.spec_variable_header() + self.spec_payload()).len() > MAX_VAR_INT
                    && final(writer)@ == old(writer)@,
            },
    {
        let mut data: Vec<u8> = Vec::new();
        self.write_variable_header_to(&mut data);
        self.write_payload_to(&mut data);

        let data_len = match VarInt::try_from_usize(data.len()) {
            Ok(v) => v,
            Err(e) => {
                return Err(e);
            },
        };

        let kind_code: u8 = Self::kind().code();
        let flags: u8 = self.flags() % 16;
        let header_and_flags: u8 = kind_code * 16 + flags;

        writer.push(header_and_flags);
        data_len.write_to(writer);
        writer.append(&mut data);

        proof {
            assert(writer@ =~= old(writer)@ + frame_bytes(
                Self::spec_kind(),
                self.spec_flags(),
                self.spec_variable_header() + self.spec_payload(),
            ));
        }
        Ok(())
    }
}

/// The frame that encodes the packet value `p`.
pub open spec fn packet_bytes<P: ControlPacket>(p: &P) -> Seq<u8> {
    frame_bytes(P::spec_kind(), p.spec_flags(), p.spec_variable_header() + p.spec_payload())
}

/// Encoding is idempotent: the frame is a function of the packet value's
/// fields alone, so encoding equal packet values yields byte-identical
/// output, however often it is repeated.
pub proof fn lemma_encoding_deterministic<P: ControlPacket>(a: &P, b: &P)
    requires
        a == b,
    ensures
        packet_bytes(a) == packet_bytes(b),
{
}

/// A connection request.
pub struct Connect<'a> {
    pub clean_start: bool,
    pub will: Option<Will<'a>>,
    pub username: Option<Str<'a>>,
    pub password: Option<Str<'a>>,
    pub keep_alive: u16,
    pub client_id: Str<'a>,
}

/// A message registered by a CONNECT packet, to be published if the
/// connection terminates abnormally.
pub struct Will<'a> {
    pub message: Str<'a>,
    pub qos: QoS,
    pub retain: bool,
}

impl<'a> Connect<'a> {
    /// Whether the will, if any, is to be retained.
    pub open spec fn spec_will_retain(&self) -> bool {
        match self.will {
            Some(will) => will.retain,
            None => false,
        }
    }

    /// The delivery-guarantee code of the will, 0 when there is none.
    pub open spec fn spec_will_qos(&self) -> u8 {
        match self.will {
            Some(will) => will.qos.spec_code(),
            None => 0,
        }
    }

    /// The Connect Flags byte, assembled most-significant bit first:
    /// username-present, password-present, will-retain, will-QoS (2 bits),
    /// will-flag, clean-start, and a reserved 0 bit.
    pub open spec fn spec_connect_flags(&self) -> u8 {
        spec_push1(
            spec_push(
                spec_push(
                    spec_push2(
                        spec_push(
                            spec_push(spec_push(0, self.username is Some), self.password is Some),
                            self.spec_will_retain(),
                        ),
                        self.spec_will_qos(),
                    ),
                    self.will is Some,
                ),
                self.clean_start,
            ),
            0,
        )
    }

    /// Assembles the Connect Flags byte.
    pub fn connect_flags(&self) -> (r: u8)
        ensures
            r == self.spec_connect_flags(),
    {
        let mut connect_flags: u8 = 0;

        // Username
        connect_flags = push(connect_flags, self.username.is_some());
        // Password
        connect_flags = push(connect_flags, self.password.is_some());
        // Will Retain
        let will_retain = match &self.will {
            Some(will) => will.retain,
            None => false,
        };
        connect_flags = push(connect_flags, will_retain);
        // Will QoS
        let will_qos: u8 = match &self.will {
            Some(will) => will.qos.code(),
            None => 0,
        };
        connect_flags = push2(connect_flags, will_qos);
        // Will Flag
        connect_flags = push(connect_flags, self.will.is_some());
        // Clean Start
        connect_flags = push(connect_flags, self.clean_start);
        // Reserved
        connect_flags = push1(connect_flags, 0);

        connect_flags
    }
}

impl<'a> ControlPacket for Connect<'a> {
    open spec fn spec_kind() -> ControlPacketKind {
        ControlPacketKind::Connect
    }

    open spec fn spec_flags(&self) -> u8 {
        0
    }

    /// The CONNECT variable header: the protocol name `"MQTT"` as a
    /// length-prefixed string, the protocol version byte 5, the Connect
    /// Flags byte, the 2-byte keep-alive, and an empty property section.
    open spec fn spec_variable_header(&self) -> Seq<u8> {
        str_encoding(seq![0x4du8, 0x51u8, 0x54u8, 0x54u8]) + seq![5u8] + seq![
            self.spec_connect_flags(),
        ] + u16_be_bytes(self.keep_alive) + seq![0u8]
    }

    /// The CONNECT payload: the client identifier only.
    open spec fn spec_payload(&self) -> Seq<u8> {
        str_encoding(self.client_id@)
    }

    fn kind() -> (k: ControlPacketKind) {
        ControlPacketKind::Connect
    }

    fn flags(&self) -> (f: u8) {
        0
    }

    fn write_variable_header_to(&self, writer: &mut Vec<u8>) {
        // Protocol Name: the length-prefixed string "MQTT"
        let name: &str = "MQTT";
        proof {
            reveal_strlit("MQTT");
            assert(is_ascii_chars(name@));
            is_ascii_chars_encode_utf8(name@);
            assert(name.spec_bytes() =~= seq![0x4du8, 0x51u8, 0x54u8, 0x54u8]);
        }
        Str::from_static(name).write_to(writer);

        // Protocol Version
        writer.push(5);

        // Connect Flags
        let connect_flags: u8 = self.connect_flags();
        writer.push(connect_flags);

        // Keep Alive
        write_u16_be(writer, self.keep_alive);

        // Property Length: an empty property section
        write_property_length_zero(writer);

        proof {
            assert(writer@ =~= old(writer)@ + self.spec_variable_header());
        }
    }

    fn write_payload_to(&self, writer: &mut Vec<u8>) {
        self.client_id.write_to(writer);
    }
}

/// A publish message.
pub struct Publish<'a> {
    pub dup: bool,
    pub qos: QoS,
    pub identifier: u16,
    pub retain: bool,
    pub topic: Str<'a>,
    pub message: &'a [u8],
}

impl<'a> Publish<'a> {
    /// The packet-identifier bytes of the variable header: present, as a
    /// 2-byte big-endian value, only for QoS 1 and 2.
    pub open spec fn spec_identifier_bytes(&self) -> Seq<u8> {
        match self.qos {
            QoS::QoS0 => Seq::empty(),
            QoS::QoS1 => u16_be_bytes(self.identifier),
            QoS::QoS2 => u16_be_bytes(self.identifier),
        }
    }
}

impl<'a> ControlPacket for Publish<'a> {
    open spec fn spec_kind() -> ControlPacketKind {
        ControlPacketKind::Publish
    }

    /// The PUBLISH flags nibble, most-significant bit first: dup, QoS
    /// (2 bits), retain.
    open spec fn spec_flags(&self) -> u8 {
        spec_push(spec_push2(spec_push(0, self.dup), self.qos.spec_code()), self.retain)
    }

    /// The PUBLISH variable header: the topic name as a length-prefixed
    /// string, the packet identifier for QoS 1 and 2, and an empty
    /// property section.
    open spec fn spec_variable_header(&self) -> Seq<u8> {
        str_encoding(self.topic@) + self.spec_identifier_bytes() + seq![0u8]
    }

    /// The PUBLISH payload: the raw message bytes, unmodified and without
    /// a length prefix.
    open spec fn spec_payload(&self) -> Seq<u8> {
        self.message@
    }

    fn kind() -> (k: ControlPacketKind) {
        ControlPacketKind::Publish
    }

    fn flags(&self) -> (f: u8) {
        let mut flags: u8 = 0;
        flags = push(flags, self.dup);
        flags = push2(flags, self.qos.code());
        flags = push(flags, self.retain);
        flags
    }

    fn write_variable_header_to(&self, writer: &mut Vec<u8>) {
        // Topic Name
        self.topic.write_to(writer);

        // Packet Identifier
        match self.qos {
            QoS::QoS1 | QoS::QoS2 => {
                write_u16_be(writer, self.identifier);
            },
            QoS::QoS0 => {},
        }

        // Property Length: an empty property section
        write_property_length_zero(writer);

        proof {
            assert(writer@ =~= old(writer)@ + self.spec_variable_header());
        }
    }

    fn write_payload_to(&self, writer: &mut Vec<u8>) {
        let mut bytes: Vec<u8> = vstd::slice::slice_to_vec(self.message);
        writer.append(&mut bytes);
    }
}

} // verus!
