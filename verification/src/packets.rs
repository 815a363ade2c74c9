//! The payload shapes: one type per command, each with a command, a
//! response and an acknowledgement form, and the conversion of each form to
//! and from payload bytes.

use crate::text::{
    bytes_of, field_views, fields_of, lemma_encode_utf8_no_space, lemma_fields_of_joined,
    lemma_fields_of_len, lemma_fields_of_single, lemma_fields_of_split,
    lemma_record_valid_iff_fields_valid, space_from, split_spaces, text_of, SPACE,
};
use vstd::prelude::*;
use vstd::utf8::{
    decode_utf8, decode_utf8_encode_utf8, encode_utf8, encode_utf8_decode_utf8,
    encode_utf8_valid_utf8, valid_utf8,
};

verus! {

/// The role a message plays in an exchange.
#[derive(Clone, Copy, Debug, PartialEq, Eq, Structural)]
pub enum MessageType {
    Command,
    Response,
    Ack,
}

/// A payload shape and its conversion to and from bytes.
///
/// `spec_parse`, `spec_pack` and `spec_message_type` say over plain values
/// what `parse`, `pack` and `message_type` compute.
pub trait Packet: Sized + View {
    /// Identifier of the command form.
    const CMD_ID: u8;

    /// Identifier of the response form.
    const RSP_ID: u8;

    /// The value that a payload stands for in a role, if it stands for one.
    spec fn spec_parse(input: Seq<u8>, msg_type: MessageType) -> Option<Self::V>;

    /// The payload of a value.
    spec fn spec_pack(value: Self::V) -> Seq<u8>;

    /// The role of a value.
    spec fn spec_message_type(value: Self::V) -> MessageType;

    /// The values that a payload can carry unambiguously.
    spec fn spec_wf(value: Self::V) -> bool;

    /// Reads a payload in a role. Fails when the payload has not the length
    /// or the content that the role's form asks for.
    fn parse(input: &[u8], msg_type: MessageType) -> (r: Result<Self, ()>)
        ensures
            match r {
                Ok(p) => Self::spec_parse(input@, msg_type) == Some(p@),
                Err(_) => Self::spec_parse(input@, msg_type) is None,
            },
    ;

    /// Writes the payload of a value.
    fn pack(&self) -> (out: Vec<u8>)
        ensures
            out@ == Self::spec_pack(self@),
    ;

    /// The role of a value.
    fn message_type(&self) -> (t: MessageType)
        ensures
            t == Self::spec_message_type(self@),
    ;

    /// Reading what was written gives the value back.
    proof fn lemma_parse_pack(value: Self::V)
        requires
            Self::spec_wf(value),
        ensures
            Self::spec_parse(Self::spec_pack(value), Self::spec_message_type(value)) == Some(
                value,
            ),
    ;

    /// Writing what was read gives the payload back, and the value read has
    /// the role it was read in.
    proof fn lemma_pack_parse(input: Seq<u8>, msg_type: MessageType)
        requires
            Self::spec_parse(input, msg_type) is Some,
        ensures
            Self::spec_pack(Self::spec_parse(input, msg_type)->Some_0) == input,
            Self::spec_message_type(Self::spec_parse(input, msg_type)->Some_0) == msg_type,
    ;
}

/// The bridge's identifier: the response carries it as text.
#[derive(PartialEq, Debug, Clone)]
pub enum MacPacket {
    Command,
    Response { mac: String },
    Ack,
}

/// What a [`MacPacket`] holds, as plain values.
pub enum MacPacketView {
    Command,
    Response { mac: Seq<char> },
    Ack,
}

impl View for MacPacket {
    type V = MacPacketView;

    open spec fn view(&self) -> MacPacketView {
        match self {
            MacPacket::Command => MacPacketView::Command,
            MacPacket::Response { mac } => MacPacketView::Response { mac: mac@ },
            MacPacket::Ack => MacPacketView::Ack,
        }
    }
}

impl Packet for MacPacket {
    const CMD_ID: u8 = 0x04;

    const RSP_ID: u8 = 0x05;

    open spec fn spec_parse(input: Seq<u8>, msg_type: MessageType) -> Option<MacPacketView> {
        match msg_type {
            MessageType::Command => if input.len() == 0 {
                Some(MacPacketView::Command)
            } else {
                None
            },
            MessageType::Response => if valid_utf8(input) {
                Some(MacPacketView::Response { mac: decode_utf8(input) })
            } else {
                None
            },
            MessageType::Ack => if input.len() == 0 {
                Some(MacPacketView::Ack)
            } else {
                None
            },
        }
    }

    open spec fn spec_pack(value: MacPacketView) -> Seq<u8> {
        match value {
            MacPacketView::Command => Seq::empty(),
            MacPacketView::Response { mac } => encode_utf8(mac),
            MacPacketView::Ack => Seq::empty(),
        }
    }

    open spec fn spec_message_type(value: MacPacketView) -> MessageType {
        match value {
            MacPacketView::Command => MessageType::Command,
            MacPacketView::Response { .. } => MessageType::Response,
            MacPacketView::Ack => MessageType::Ack,
        }
    }

    open spec fn spec_wf(value: MacPacketView) -> bool {
        true
    }

    fn parse(input: &[u8], msg_type: MessageType) -> (r: Result<Self, ()>) {
        match msg_type {
            MessageType::Command => if input.len() == 0 {
                Ok(MacPacket::Command)
            } else {
                Err(())
            },
            MessageType::Response => match text_of(input) {
                Some(mac) => Ok(MacPacket::Response { mac }),
                None => Err(()),
            },
            MessageType::Ack => if input.len() == 0 {
                Ok(MacPacket::Ack)
            } else {
                Err(())
            },
        }
    }

    fn pack(&self) -> (out: Vec<u8>) {
        match self {
            MacPacket::Command => Vec::new(),
            MacPacket::Response { mac } => bytes_of(mac),
            MacPacket::Ack => Vec::new(),
        }
    }

    fn message_type(&self) -> (t: MessageType) {
        match self {
            MacPacket::Command => MessageType::Command,
            MacPacket::Response { mac: _ } => MessageType::Response,
            MacPacket::Ack => MessageType::Ack,
        }
    }

    proof fn lemma_parse_pack(value: MacPacketView) {
        if let MacPacketView::Response { mac } = value {
            encode_utf8_valid_utf8(mac);
            encode_utf8_decode_utf8(mac);
        }
    }

    proof fn lemma_pack_parse(input: Seq<u8>, msg_type: MessageType) {
        if msg_type == MessageType::Response {
            decode_utf8_encode_utf8(input);
        } else {
            assert(Self::spec_pack(Self::spec_parse(input, msg_type)->Some_0) =~= input);
        }
    }
}

/// The opening inquiry: the response carries one byte.
#[derive(Clone, Copy, Debug, PartialEq, Eq, Structural)]
pub enum InquiryPacket {
    Command,
    Response { value: u8 },
    Ack,
}

impl View for InquiryPacket {
    type V = InquiryPacket;

    open spec fn view(&self) -> InquiryPacket {
        *self
    }
}

impl Packet for InquiryPacket {
    const CMD_ID: u8 = 0x27;

    const RSP_ID: u8 = 0x28;

    open spec fn spec_parse(input: Seq<u8>, msg_type: MessageType) -> Option<InquiryPacket> {
        match msg_type {
            MessageType::Command => if input.len() == 0 {
                Some(InquiryPacket::Command)
            } else {
                None
            },
            MessageType::Response => if input.len() == 1 {
                Some(InquiryPacket::Response { value: input[0] })
            } else {
                None
            },
            MessageType::Ack => if input.len() == 0 {
                Some(InquiryPacket::Ack)
            } else {
                None
            },
        }
    }

    open spec fn spec_pack(value: InquiryPacket) -> Seq<u8> {
        match value {
            InquiryPacket::Command => Seq::empty(),
            InquiryPacket::Response { value } => seq![value],
            InquiryPacket::Ack => Seq::empty(),
        }
    }

    open spec fn spec_message_type(value: InquiryPacket) -> MessageType {
        match value {
            InquiryPacket::Command => MessageType::Command,
            InquiryPacket::Response { .. } => MessageType::Response,
            InquiryPacket::Ack => MessageType::Ack,
        }
    }

    open spec fn spec_wf(value: InquiryPacket) -> bool {
        true
    }

    fn parse(input: &[u8], msg_type: MessageType) -> (r: Result<Self, ()>) {
        match msg_type {
            MessageType::Command => if input.len() == 0 {
                Ok(InquiryPacket::Command)
            } else {
                Err(())
            },
            MessageType::Response => if input.len() == 1 {
                Ok(InquiryPacket::Response { value: input[0] })
            } else {
                Err(())
            },
            MessageType::Ack => if input.len() == 0 {
                Ok(InquiryPacket::Ack)
            } else {
                Err(())
            },
        }
    }

    fn pack(&self) -> (out: Vec<u8>) {
        match self {
            InquiryPacket::Command => Vec::new(),
            InquiryPacket::Response { value } => {
                let mut out: Vec<u8> = Vec::new();
                out.push(*value);
                assert(out@ =~= seq![*value]);
                out
            },
            InquiryPacket::Ack => Vec::new(),
        }
    }

    fn message_type(&self) -> (t: MessageType) {
        match self {
            InquiryPacket::Command => MessageType::Command,
            InquiryPacket::Response { value: _ } => MessageType::Response,
            InquiryPacket::Ack => MessageType::Ack,
        }
    }

    proof fn lemma_parse_pack(value: InquiryPacket) {
    }

    proof fn lemma_pack_parse(input: Seq<u8>, msg_type: MessageType) {
        assert(Self::spec_pack(Self::spec_parse(input, msg_type)->Some_0) =~= input);
    }
}

/// The number of sensors bound to the bridge: the response carries it in one byte.
#[derive(Clone, Copy, Debug, PartialEq, Eq, Structural)]
pub enum SensorCountPacket {
    Command,
    Response { count: u8 },
    Ack,
}

impl View for SensorCountPacket {
    type V = SensorCountPacket;

    open spec fn view(&self) -> SensorCountPacket {
        *self
    }
}

impl Packet for SensorCountPacket {
    const CMD_ID: u8 = 0x2E;

    const RSP_ID: u8 = 0x2F;

    open spec fn spec_parse(input: Seq<u8>, msg_type: MessageType) -> Option<SensorCountPacket> {
        match msg_type {
            MessageType::Command => if input.len() == 0 {
                Some(SensorCountPacket::Command)
            } else {
                None
            },
            MessageType::Response => if input.len() == 1 {
                Some(SensorCountPacket::Response { count: input[0] })
            } else {
                None
            },
            MessageType::Ack => if input.len() == 0 {
                Some(SensorCountPacket::Ack)
            } else {
                None
            },
        }
    }

    open spec fn spec_pack(value: SensorCountPacket) -> Seq<u8> {
        match value {
            SensorCountPacket::Command => Seq::empty(),
            SensorCountPacket::Response { count } => seq![count],
            SensorCountPacket::Ack => Seq::empty(),
        }
    }

    open spec fn spec_message_type(value: SensorCountPacket) -> MessageType {
        match value {
            SensorCountPacket::Command => MessageType::Command,
            SensorCountPacket::Response { .. } => MessageType::Response,
            SensorCountPacket::Ack => MessageType::Ack,
        }
    }

    open spec fn spec_wf(value: SensorCountPacket) -> bool {
        true
    }

    fn parse(input: &[u8], msg_type: MessageType) -> (r: Result<Self, ()>) {
        match msg_type {
            MessageType::Command => if input.len() == 0 {
                Ok(SensorCountPacket::Command)
            } else {
                Err(())
            },
            MessageType::Response => if input.len() == 1 {
                Ok(SensorCountPacket::Response { count: input[0] })
            } else {
                Err(())
            },
            MessageType::Ack => if input.len() == 0 {
                Ok(SensorCountPacket::Ack)
            } else {
                Err(())
            },
        }
    }

    fn pack(&self) -> (out: Vec<u8>) {
        match self {
            SensorCountPacket::Command => Vec::new(),
            SensorCountPacket::Response { count } => {
                let mut out: Vec<u8> = Vec::new();
                out.push(*count);
                assert(out@ =~= seq![*count]);
                out
            },
            SensorCountPacket::Ack => Vec::new(),
        }
    }

    fn message_type(&self) -> (t: MessageType) {
        match self {
            SensorCountPacket::Command => MessageType::Command,
            SensorCountPacket::Response { count: _ } => MessageType::Response,
            SensorCountPacket::Ack => MessageType::Ack,
        }
    }

    proof fn lemma_parse_pack(value: SensorCountPacket) {
    }

    proof fn lemma_pack_parse(input: Seq<u8>, msg_type: MessageType) {
        assert(Self::spec_pack(Self::spec_parse(input, msg_type)->Some_0) =~= input);
    }
}

/// The bridge's versions: the response is one record of four fields set
/// apart by single spaces.
#[derive(PartialEq, Debug, Clone)]
pub enum VersionPacket {
    Command,
    Response { fw_version: String, hw_version: String, hw_type: String, magic: String },
    Ack,
}

/// What a [`VersionPacket`] holds, as plain values.
pub enum VersionPacketView {
    Command,
    Response { fw_version: Seq<char>, hw_version: Seq<char>, hw_type: Seq<char>, magic: Seq<char> },
    Ack,
}

impl View for VersionPacket {
    type V = VersionPacketView;

    open spec fn view(&self) -> VersionPacketView {
        match self {
            VersionPacket::Command => VersionPacketView::Command,
            VersionPacket::Response {
                fw_version,
                hw_version,
                hw_type,
                magic,
            } => VersionPacketView::Response {
                fw_version: fw_version@,
                hw_version: hw_version@,
                hw_type: hw_type@,
                magic: magic@,
            },
            VersionPacket::Ack => VersionPacketView::Ack,
        }
    }
}

impl Packet for VersionPacket {
    const CMD_ID: u8 = 0x16;

    const RSP_ID: u8 = 0x17;

    open spec fn spec_parse(input: Seq<u8>, msg_type: MessageType) -> Option<VersionPacketView> {
        match msg_type {
            MessageType::Command => if input.len() == 0 {
                Some(VersionPacketView::Command)
            } else {
                None
            },
            MessageType::Response => {
                let fields = fields_of(input);
                if valid_utf8(input) && fields.len() == 4 {
                    Some(
                        VersionPacketView::Response {
                            fw_version: decode_utf8(fields[0]),
                            hw_version: decode_utf8(fields[1]),
                            hw_type: decode_utf8(fields[2]),
                            magic: decode_utf8(fields[3]),
                        },
                    )
                } else {
                    None
                }
            },
            MessageType::Ack => if input.len() == 0 {
                Some(VersionPacketView::Ack)
            } else {
                None
            },
        }
    }

    open spec fn spec_pack(value: VersionPacketView) -> Seq<u8> {
        match value {
            VersionPacketView::Command => Seq::empty(),
            VersionPacketView::Response { fw_version, hw_version, hw_type, magic } => {
                encode_utf8(fw_version) + seq![SPACE] + (encode_utf8(hw_version) + seq![SPACE] + (
                encode_utf8(hw_type) + seq![SPACE] + encode_utf8(magic)))
            },
            VersionPacketView::Ack => Seq::empty(),
        }
    }

    open spec fn spec_message_type(value: VersionPacketView) -> MessageType {
        match value {
            VersionPacketView::Command => MessageType::Command,
            VersionPacketView::Response { .. } => MessageType::Response,
            VersionPacketView::Ack => MessageType::Ack,
        }
    }

    /// A field that held a space would be read back as two.
    open spec fn spec_wf(value: VersionPacketView) -> bool {
        value matches VersionPacketView::Response { fw_version, hw_version, hw_type, magic }
            ==> !fw_version.contains(' ') && !hw_version.contains(' ') && !hw_type.contains(' ')
            && !magic.contains(' ')
    }

    fn parse(input: &[u8], msg_type: MessageType) -> (r: Result<Self, ()>) {
        match msg_type {
            MessageType::Command => if input.len() == 0 {
                Ok(VersionPacket::Command)
            } else {
                Err(())
            },
            MessageType::Response => {
                let fields = split_spaces(input);
                if fields.len() != 4 {
                    return Err(());
                }
                assert(field_views(fields@)[0] == fields@[0]@);
                assert(field_views(fields@)[1] == fields@[1]@);
                assert(field_views(fields@)[2] == fields@[2]@);
                assert(field_views(fields@)[3] == fields@[3]@);
                proof {
                    lemma_record_valid_iff_fields_valid(input@);
                }
                let fw_version = text_of(fields[0].as_slice());
                let hw_version = text_of(fields[1].as_slice());
                let hw_type = text_of(fields[2].as_slice());
                let magic = text_of(fields[3].as_slice());
                match (fw_version, hw_version, hw_type, magic) {
                    (Some(fw_version), Some(hw_version), Some(hw_type), Some(magic)) => Ok(
                        VersionPacket::Response { fw_version, hw_version, hw_type, magic },
                    ),
                    _ => Err(()),
                }
            },
            MessageType::Ack => if input.len() == 0 {
                Ok(VersionPacket::Ack)
            } else {
                Err(())
            },
        }
    }

    fn pack(&self) -> (out: Vec<u8>) {
        match self {
            VersionPacket::Command => Vec::new(),
            VersionPacket::Response { fw_version, hw_version, hw_type, magic } => {
                let mut out: Vec<u8> = bytes_of(fw_version);
                let mut second: Vec<u8> = bytes_of(hw_version);
                let mut third: Vec<u8> = bytes_of(hw_type);
                let mut fourth: Vec<u8> = bytes_of(magic);
                out.push(SPACE);
                out.append(&mut second);
                out.push(SPACE);
                out.append(&mut third);
                out.push(SPACE);
                out.append(&mut fourth);
                assert(out@ =~= Self::spec_pack(self@));
                out
            },
            VersionPacket::Ack => Vec::new(),
        }
    }

    fn message_type(&self) -> (t: MessageType) {
        match self {
            VersionPacket::Command => MessageType::Command,
            VersionPacket::Response {
                fw_version: _,
                hw_version: _,
                hw_type: _,
                magic: _,
            } => MessageType::Response,
            VersionPacket::Ack => MessageType::Ack,
        }
    }

    proof fn lemma_parse_pack(value: VersionPacketView) {
        if let VersionPacketView::Response { fw_version, hw_version, hw_type, magic } = value {
            let a = encode_utf8(fw_version);
            let b = encode_utf8(hw_version);
            let c = encode_utf8(hw_type);
            let d = encode_utf8(magic);
            lemma_encode_utf8_no_space(fw_version);
            lemma_encode_utf8_no_space(hw_version);
            lemma_encode_utf8_no_space(hw_type);
            lemma_encode_utf8_no_space(magic);
            lemma_fields_of_single(d);
            lemma_fields_of_joined(c, d);
            lemma_fields_of_joined(b, c + seq![SPACE] + d);
            lemma_fields_of_joined(a, b + seq![SPACE] + (c + seq![SPACE] + d));
            assert(fields_of(Self::spec_pack(value)) =~= seq![a, b, c, d]);
            lemma_record_valid_iff_fields_valid(Self::spec_pack(value));
            encode_utf8_valid_utf8(fw_version);
            encode_utf8_valid_utf8(hw_version);
            encode_utf8_valid_utf8(hw_type);
            encode_utf8_valid_utf8(magic);
            encode_utf8_decode_utf8(fw_version);
            encode_utf8_decode_utf8(hw_version);
            encode_utf8_decode_utf8(hw_type);
            encode_utf8_decode_utf8(magic);
        }
    }

    proof fn lemma_pack_parse(input: Seq<u8>, msg_type: MessageType) {
        if msg_type == MessageType::Response {
            let fields = fields_of(input);
            lemma_record_valid_iff_fields_valid(input);
            assert(valid_utf8(fields[0]) && valid_utf8(fields[1]) && valid_utf8(fields[2])
                && valid_utf8(fields[3]));
            decode_utf8_encode_utf8(fields[0]);
            decode_utf8_encode_utf8(fields[1]);
            decode_utf8_encode_utf8(fields[2]);
            decode_utf8_encode_utf8(fields[3]);
            lemma_fields_of_len(input);
            lemma_fields_of_split(input);
            let second = input.skip(space_from(input, 0) + 1);
            lemma_fields_of_len(second);
            lemma_fields_of_split(second);
            let third = second.skip(space_from(second, 0) + 1);
            lemma_fields_of_len(third);
            lemma_fields_of_split(third);
            let fourth = third.skip(space_from(third, 0) + 1);
            lemma_fields_of_len(fourth);
            assert(fields[0] == input.take(space_from(input, 0)));
            assert(fields[1] == second.take(space_from(second, 0)));
            assert(fields[2] == third.take(space_from(third, 0)));
            assert(fields[3] == fourth);
            assert(Self::spec_pack(Self::spec_parse(input, msg_type)->Some_0) =~= input);
        } else {
            assert(Self::spec_pack(Self::spec_parse(input, msg_type)->Some_0) =~= input);
        }
    }
}

/// The sensors bound to the bridge: the command asks for a number of them,
/// each response names one as text.
#[derive(PartialEq, Debug, Clone)]
pub enum SensorListPacket {
    Command { count: u8 },
    Response { mac: String },
    Ack,
}

/// What a [`SensorListPacket`] holds, as plain values.
pub enum SensorListPacketView {
    Command { count: u8 },
    Response { mac: Seq<char> },
    Ack,
}

impl View for SensorListPacket {
    type V = SensorListPacketView;

    open spec fn view(&self) -> SensorListPacketView {
        match self {
            SensorListPacket::Command { count } => SensorListPacketView::Command { count: *count },
            SensorListPacket::Response { mac } => SensorListPacketView::Response { mac: mac@ },
            SensorListPacket::Ack => SensorListPacketView::Ack,
        }
    }
}

impl Packet for SensorListPacket {
    const CMD_ID: u8 = 0x30;

    const RSP_ID: u8 = 0x31;

    open spec fn spec_parse(input: Seq<u8>, msg_type: MessageType) -> Option<
        SensorListPacketView,
    > {
        match msg_type {
            MessageType::Command => if input.len() == 1 {
                Some(SensorListPacketView::Command { count: input[0] })
            } else {
                None
            },
            MessageType::Response => if valid_utf8(input) {
                Some(SensorListPacketView::Response { mac: decode_utf8(input) })
            } else {
                None
            },
            MessageType::Ack => if input.len() == 0 {
                Some(SensorListPacketView::Ack)
            } else {
                None
            },
        }
    }

    open spec fn spec_pack(value: SensorListPacketView) -> Seq<u8> {
        match value {
            SensorListPacketView::Command { count } => seq![count],
            SensorListPacketView::Response { mac } => encode_utf8(mac),
            SensorListPacketView::Ack => Seq::empty(),
        }
    }

    open spec fn spec_message_type(value: SensorListPacketView) -> MessageType {
        match value {
            SensorListPacketView::Command { .. } => MessageType::Command,
            SensorListPacketView::Response { .. } => MessageType::Response,
            SensorListPacketView::Ack => MessageType::Ack,
        }
    }

    open spec fn spec_wf(value: SensorListPacketView) -> bool {
        true
    }

    fn parse(input: &[u8], msg_type: MessageType) -> (r: Result<Self, ()>) {
        match msg_type {
            MessageType::Command => if input.len() == 1 {
                Ok(SensorListPacket::Command { count: input[0] })
            } else {
                Err(())
            },
            MessageType::Response => match text_of(input) {
                Some(mac) => Ok(SensorListPacket::Response { mac }),
                None => Err(()),
            },
            MessageType::Ack => if input.len() == 0 {
                Ok(SensorListPacket::Ack)
            } else {
                Err(())
            },
        }
    }

    fn pack(&self) -> (out: Vec<u8>) {
        match self {
            SensorListPacket::Command { count } => {
                let mut out: Vec<u8> = Vec::new();
                out.push(*count);
                assert(out@ =~= seq![*count]);
                out
            },
            SensorListPacket::Response { mac } => bytes_of(mac),
            SensorListPacket::Ack => Vec::new(),
        }
    }

    fn message_type(&self) -> (t: MessageType) {
        match self {
            SensorListPacket::Command { count: _ } => MessageType::Command,
            SensorListPacket::Response { mac: _ } => MessageType::Response,
            SensorListPacket::Ack => MessageType::Ack,
        }
    }

    proof fn lemma_parse_pack(value: SensorListPacketView) {
        if let SensorListPacketView::Response { mac } = value {
            encode_utf8_valid_utf8(mac);
            encode_utf8_decode_utf8(mac);
        }
    }

    proof fn lemma_pack_parse(input: Seq<u8>, msg_type: MessageType) {
        if msg_type == MessageType::Response {
            decode_utf8_encode_utf8(input);
        } else {
            assert(Self::spec_pack(Self::spec_parse(input, msg_type)->Some_0) =~= input);
        }
    }
}

/// Authorisation of the host: the command carries a completion byte, `00`
/// while in progress (the bridge blinks), `FF` when done.
#[derive(Clone, Copy, Debug, PartialEq, Eq, Structural)]
pub enum AuthPacket {
    Command { completion: u8 },
    Response,
    Ack,
}

impl View for AuthPacket {
    type V = AuthPacket;

    open spec fn view(&self) -> AuthPacket {
        *self
    }
}

impl Packet for AuthPacket {
    const CMD_ID: u8 = 0x14;

    const RSP_ID: u8 = 0x15;

    open spec fn spec_parse(input: Seq<u8>, msg_type: MessageType) -> Option<AuthPacket> {
        match msg_type {
            MessageType::Command => if input.len() == 1 {
                Some(AuthPacket::Command { completion: input[0] })
            } else {
                None
            },
            MessageType::Response => if input.len() == 0 {
                Some(AuthPacket::Response)
            } else {
                None
            },
            MessageType::Ack => if input.len() == 0 {
                Some(AuthPacket::Ack)
            } else {
                None
            },
        }
    }

    open spec fn spec_pack(value: AuthPacket) -> Seq<u8> {
        match value {
            AuthPacket::Command { completion } => seq![completion],
            AuthPacket::Response => Seq::empty(),
            AuthPacket::Ack => Seq::empty(),
        }
    }

    open spec fn spec_message_type(value: AuthPacket) -> MessageType {
        match value {
            AuthPacket::Command { .. } => MessageType::Command,
            AuthPacket::Response => MessageType::Response,
            AuthPacket::Ack => MessageType::Ack,
        }
    }

    open spec fn spec_wf(value: AuthPacket) -> bool {
        true
    }

    fn parse(input: &[u8], msg_type: MessageType) -> (r: Result<Self, ()>) {
        match msg_type {
            MessageType::Command => if input.len() == 1 {
                Ok(AuthPacket::Command { completion: input[0] })
            } else {
                Err(())
            },
            MessageType::Response => if input.len() == 0 {
                Ok(AuthPacket::Response)
            } else {
                Err(())
            },
            MessageType::Ack => if input.len() == 0 {
                Ok(AuthPacket::Ack)
            } else {
                Err(())
            },
        }
    }

    fn pack(&self) -> (out: Vec<u8>) {
        match self {
            AuthPacket::Command { completion } => {
                let mut out: Vec<u8> = Vec::new();
                out.push(*completion);
                assert(out@ =~= seq![*completion]);
                out
            },
            AuthPacket::Response => Vec::new(),
            AuthPacket::Ack => Vec::new(),
        }
    }

    fn message_type(&self) -> (t: MessageType) {
        match self {
            AuthPacket::Command { completion: _ } => MessageType::Command,
            AuthPacket::Response => MessageType::Response,
            AuthPacket::Ack => MessageType::Ack,
        }
    }

    proof fn lemma_parse_pack(value: AuthPacket) {
    }

    proof fn lemma_pack_parse(input: Seq<u8>, msg_type: MessageType) {
        assert(Self::spec_pack(Self::spec_parse(input, msg_type)->Some_0) =~= input);
    }
}

/// The identifiers of the six kinds: no two are equal, and none is `FF`,
/// which field B of a frame reserves for acknowledgements.
pub proof fn lemma_identifiers()
    ensures
        InquiryPacket::CMD_ID == 0x27 && InquiryPacket::RSP_ID == 0x28,
        MacPacket::CMD_ID == 0x04 && MacPacket::RSP_ID == 0x05,
        VersionPacket::CMD_ID == 0x16 && VersionPacket::RSP_ID == 0x17,
        SensorCountPacket::CMD_ID == 0x2E && SensorCountPacket::RSP_ID == 0x2F,
        SensorListPacket::CMD_ID == 0x30 && SensorListPacket::RSP_ID == 0x31,
        AuthPacket::CMD_ID == 0x14 && AuthPacket::RSP_ID == 0x15,
{
}

} // verus!
