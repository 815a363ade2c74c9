//! The closed set of payloads and the dispatch from a command identifier to
//! the shape that reads it.
//!
//! | kind        | command | response | type  |
//! |-------------|---------|----------|-------|
//! | Inquiry     | 27      | 28       | sync  |
//! | Mac         | 04      | 05       | sync  |
//! | Version     | 16      | 17       | async |
//! | SensorCount | 2E      | 2F       | async |
//! | SensorList  | 30      | 31       | async |
//! | Auth        | 14      | 15       | async |

use crate::frame::{Frame, FrameView, PacketSource, PacketSyncType, MAX_PAYLOAD};
use crate::packets::{
    lemma_identifiers, AuthPacket, InquiryPacket, MacPacket, MacPacketView, MessageType, Packet,
    SensorCountPacket, SensorListPacket, SensorListPacketView, VersionPacket, VersionPacketView,
};
use vstd::prelude::*;

verus! {

/// The name of a payload shape.
#[derive(Clone, Copy, Debug, PartialEq, Eq, Structural)]
pub enum PacketKind {
    Inquiry,
    Mac,
    Version,
    SensorCount,
    SensorList,
    Auth,
}

impl PacketKind {
    /// The identifier of the kind's command form.
    pub open spec fn spec_cmd_id(self) -> u8 {
        match self {
            PacketKind::Inquiry => InquiryPacket::CMD_ID,
            PacketKind::Mac => MacPacket::CMD_ID,
            PacketKind::Version => VersionPacket::CMD_ID,
            PacketKind::SensorCount => SensorCountPacket::CMD_ID,
            PacketKind::SensorList => SensorListPacket::CMD_ID,
            PacketKind::Auth => AuthPacket::CMD_ID,
        }
    }

    /// The identifier of the kind's response form.
    pub open spec fn spec_rsp_id(self) -> u8 {
        match self {
            PacketKind::Inquiry => InquiryPacket::RSP_ID,
            PacketKind::Mac => MacPacket::RSP_ID,
            PacketKind::Version => VersionPacket::RSP_ID,
            PacketKind::SensorCount => SensorCountPacket::RSP_ID,
            PacketKind::SensorList => SensorListPacket::RSP_ID,
            PacketKind::Auth => AuthPacket::RSP_ID,
        }
    }

    /// The namespace the kind's frames travel in.
    pub open spec fn spec_sync_type(self) -> PacketSyncType {
        match self {
            PacketKind::Inquiry => PacketSyncType::Sync,
            PacketKind::Mac => PacketSyncType::Sync,
            PacketKind::Version => PacketSyncType::Async,
            PacketKind::SensorCount => PacketSyncType::Async,
            PacketKind::SensorList => PacketSyncType::Async,
            PacketKind::Auth => PacketSyncType::Async,
        }
    }

    /// The kind an identifier belongs to, and whether it is that kind's
    /// command or response identifier. The command identifiers are tried
    /// first.
    pub open spec fn spec_lookup(id: u8) -> Option<(PacketKind, MessageType)> {
        if id == InquiryPacket::CMD_ID {
            Some((PacketKind::Inquiry, MessageType::Command))
        } else if id == MacPacket::CMD_ID {
            Some((PacketKind::Mac, MessageType::Command))
        } else if id == VersionPacket::CMD_ID {
            Some((PacketKind::Version, MessageType::Command))
        } else if id == SensorCountPacket::CMD_ID {
            Some((PacketKind::SensorCount, MessageType::Command))
        } else if id == SensorListPacket::CMD_ID {
            Some((PacketKind::SensorList, MessageType::Command))
        } else if id == AuthPacket::CMD_ID {
            Some((PacketKind::Auth, MessageType::Command))
        } else if id == InquiryPacket::RSP_ID {
            Some((PacketKind::Inquiry, MessageType::Response))
        } else if id == MacPacket::RSP_ID {
            Some((PacketKind::Mac, MessageType::Response))
        } else if id == VersionPacket::RSP_ID {
            Some((PacketKind::Version, MessageType::Response))
        } else if id == SensorCountPacket::RSP_ID {
            Some((PacketKind::SensorCount, MessageType::Response))
        } else if id == SensorListPacket::RSP_ID {
            Some((PacketKind::SensorList, MessageType::Response))
        } else if id == AuthPacket::RSP_ID {
            Some((PacketKind::Auth, MessageType::Response))
        } else {
            None
        }
    }

    /// The identifier of the kind's command form.
    pub fn cmd_id(&self) -> (id: u8)
        ensures
            id == self.spec_cmd_id(),
            Self::spec_lookup(id) == Some((*self, MessageType::Command)),
    {
        proof {
            lemma_identifiers();
        }
        match self {
            PacketKind::Inquiry => InquiryPacket::CMD_ID,
            PacketKind::Mac => MacPacket::CMD_ID,
            PacketKind::Version => VersionPacket::CMD_ID,
            PacketKind::SensorCount => SensorCountPacket::CMD_ID,
            PacketKind::SensorList => SensorListPacket::CMD_ID,
            PacketKind::Auth => AuthPacket::CMD_ID,
        }
    }

    /// The identifier of the kind's response form.
    pub fn rsp_id(&self) -> (id: u8)
        ensures
            id == self.spec_rsp_id(),
            Self::spec_lookup(id) == Some((*self, MessageType::Response)),
    {
        proof {
            lemma_identifiers();
        }
        match self {
            PacketKind::Inquiry => InquiryPacket::RSP_ID,
            PacketKind::Mac => MacPacket::RSP_ID,
            PacketKind::Version => VersionPacket::RSP_ID,
            PacketKind::SensorCount => SensorCountPacket::RSP_ID,
            PacketKind::SensorList => SensorListPacket::RSP_ID,
            PacketKind::Auth => AuthPacket::RSP_ID,
        }
    }

    /// The namespace the kind's frames travel in.
    pub fn sync_type(&self) -> (t: PacketSyncType)
        ensures
            t == self.spec_sync_type(),
    {
        match self {
            PacketKind::Inquiry => PacketSyncType::Sync,
            PacketKind::Mac => PacketSyncType::Sync,
            PacketKind::Version => PacketSyncType::Async,
            PacketKind::SensorCount => PacketSyncType::Async,
            PacketKind::SensorList => PacketSyncType::Async,
            PacketKind::Auth => PacketSyncType::Async,
        }
    }

    /// Finds the kind an identifier belongs to.
    pub fn lookup(id: u8) -> (r: Option<(PacketKind, MessageType)>)
        ensures
            r == Self::spec_lookup(id),
    {
        if id == InquiryPacket::CMD_ID {
            Some((PacketKind::Inquiry, MessageType::Command))
        } else if id == MacPacket::CMD_ID {
            Some((PacketKind::Mac, MessageType::Command))
        } else if id == VersionPacket::CMD_ID {
            Some((PacketKind::Version, MessageType::Command))
        } else if id == SensorCountPacket::CMD_ID {
            Some((PacketKind::SensorCount, MessageType::Command))
        } else if id == SensorListPacket::CMD_ID {
            Some((PacketKind::SensorList, MessageType::Command))
        } else if id == AuthPacket::CMD_ID {
            Some((PacketKind::Auth, MessageType::Command))
        } else if id == InquiryPacket::RSP_ID {
            Some((PacketKind::Inquiry, MessageType::Response))
        } else if id == MacPacket::RSP_ID {
            Some((PacketKind::Mac, MessageType::Response))
        } else if id == VersionPacket::RSP_ID {
            Some((PacketKind::Version, MessageType::Response))
        } else if id == SensorCountPacket::RSP_ID {
            Some((PacketKind::SensorCount, MessageType::Response))
        } else if id == SensorListPacket::RSP_ID {
            Some((PacketKind::SensorList, MessageType::Response))
        } else if id == AuthPacket::RSP_ID {
            Some((PacketKind::Auth, MessageType::Response))
        } else {
            None
        }
    }
}

/// Why a payload could not be read. Neither is fatal: the frame is dropped
/// and scanning goes on.
#[derive(Clone, Copy, Debug, PartialEq, Eq, Structural)]
pub enum DecodeError {
    /// No kind has the identifier.
    UnknownCommand,
    /// The payload has not the length or the content that the kind's form
    /// asks for.
    Malformed,
}

/// A payload of any kind.
#[derive(PartialEq, Debug, Clone)]
pub enum PacketPayload {
    InquiryPacket(InquiryPacket),
    MacPacket(MacPacket),
    VersionPacket(VersionPacket),
    SensorCountPacket(SensorCountPacket),
    SensorListPacket(SensorListPacket),
    AuthPacket(AuthPacket),
}

/// What a [`PacketPayload`] holds, as plain values.
pub enum PacketPayloadView {
    InquiryPacket(InquiryPacket),
    MacPacket(MacPacketView),
    VersionPacket(VersionPacketView),
    SensorCountPacket(SensorCountPacket),
    SensorListPacket(SensorListPacketView),
    AuthPacket(AuthPacket),
}

impl View for PacketPayload {
    type V = PacketPayloadView;

    open spec fn view(&self) -> PacketPayloadView {
        match self {
            PacketPayload::InquiryPacket(p) => PacketPayloadView::InquiryPacket(p@),
            PacketPayload::MacPacket(p) => PacketPayloadView::MacPacket(p@),
            PacketPayload::VersionPacket(p) => PacketPayloadView::VersionPacket(p@),
            PacketPayload::SensorCountPacket(p) => PacketPayloadView::SensorCountPacket(p@),
            PacketPayload::SensorListPacket(p) => PacketPayloadView::SensorListPacket(p@),
            PacketPayload::AuthPacket(p) => PacketPayloadView::AuthPacket(p@),
        }
    }
}

/// Wraps what a shape read, or reports that it read nothing.
pub open spec fn read_as<V>(
    parsed: Option<V>,
    wrap: spec_fn(V) -> PacketPayloadView,
) -> Result<PacketPayloadView, DecodeError> {
    match parsed {
        Some(v) => Ok(wrap(v)),
        None => Err(DecodeError::Malformed),
    }
}

impl PacketPayloadView {
    /// The kind of the payload.
    pub open spec fn kind(self) -> PacketKind {
        match self {
            PacketPayloadView::InquiryPacket(_) => PacketKind::Inquiry,
            PacketPayloadView::MacPacket(_) => PacketKind::Mac,
            PacketPayloadView::VersionPacket(_) => PacketKind::Version,
            PacketPayloadView::SensorCountPacket(_) => PacketKind::SensorCount,
            PacketPayloadView::SensorListPacket(_) => PacketKind::SensorList,
            PacketPayloadView::AuthPacket(_) => PacketKind::Auth,
        }
    }

    /// The role of the payload.
    pub open spec fn message_type(self) -> MessageType {
        match self {
            PacketPayloadView::InquiryPacket(p) => InquiryPacket::spec_message_type(p),
            PacketPayloadView::MacPacket(p) => MacPacket::spec_message_type(p),
            PacketPayloadView::VersionPacket(p) => VersionPacket::spec_message_type(p),
            PacketPayloadView::SensorCountPacket(p) => SensorCountPacket::spec_message_type(p),
            PacketPayloadView::SensorListPacket(p) => SensorListPacket::spec_message_type(p),
            PacketPayloadView::AuthPacket(p) => AuthPacket::spec_message_type(p),
        }
    }

    /// The payload as bytes.
    pub open spec fn packed(self) -> Seq<u8> {
        match self {
            PacketPayloadView::InquiryPacket(p) => InquiryPacket::spec_pack(p),
            PacketPayloadView::MacPacket(p) => MacPacket::spec_pack(p),
            PacketPayloadView::VersionPacket(p) => VersionPacket::spec_pack(p),
            PacketPayloadView::SensorCountPacket(p) => SensorCountPacket::spec_pack(p),
            PacketPayloadView::SensorListPacket(p) => SensorListPacket::spec_pack(p),
            PacketPayloadView::AuthPacket(p) => AuthPacket::spec_pack(p),
        }
    }

    /// The values that a payload can carry unambiguously.
    pub open spec fn wf(self) -> bool {
        match self {
            PacketPayloadView::InquiryPacket(p) => InquiryPacket::spec_wf(p),
            PacketPayloadView::MacPacket(p) => MacPacket::spec_wf(p),
            PacketPayloadView::VersionPacket(p) => VersionPacket::spec_wf(p),
            PacketPayloadView::SensorCountPacket(p) => SensorCountPacket::spec_wf(p),
            PacketPayloadView::SensorListPacket(p) => SensorListPacket::spec_wf(p),
            PacketPayloadView::AuthPacket(p) => AuthPacket::spec_wf(p),
        }
    }

    /// The identifier the payload travels under: the response identifier of
    /// its kind for a response, the command identifier for a command and for
    /// an acknowledgement.
    pub open spec fn command_id(self) -> u8 {
        if self.message_type() == MessageType::Response {
            self.kind().spec_rsp_id()
        } else {
            self.kind().spec_cmd_id()
        }
    }

    /// The payload of the kind `kind` that `input` stands for in a role.
    pub open spec fn parse_kind(kind: PacketKind, input: Seq<u8>, msg_type: MessageType) -> Result<
        PacketPayloadView,
        DecodeError,
    > {
        match kind {
            PacketKind::Inquiry => read_as(
                InquiryPacket::spec_parse(input, msg_type),
                |p: InquiryPacket| PacketPayloadView::InquiryPacket(p),
            ),
            PacketKind::Mac => read_as(
                MacPacket::spec_parse(input, msg_type),
                |p: MacPacketView| PacketPayloadView::MacPacket(p),
            ),
            PacketKind::Version => read_as(
                VersionPacket::spec_parse(input, msg_type),
                |p: VersionPacketView| PacketPayloadView::VersionPacket(p),
            ),
            PacketKind::SensorCount => read_as(
                SensorCountPacket::spec_parse(input, msg_type),
                |p: SensorCountPacket| PacketPayloadView::SensorCountPacket(p),
            ),
            PacketKind::SensorList => read_as(
                SensorListPacket::spec_parse(input, msg_type),
                |p: SensorListPacketView| PacketPayloadView::SensorListPacket(p),
            ),
            PacketKind::Auth => read_as(
                AuthPacket::spec_parse(input, msg_type),
                |p: AuthPacket| PacketPayloadView::AuthPacket(p),
            ),
        }
    }

    /// The payload that `input` stands for under the identifier `id`.
    ///
    /// The identifier selects the kind and tells a command from a response;
    /// with `ack` set the acknowledgement form of that kind is read instead.
    pub open spec fn parse(input: Seq<u8>, id: u8, ack: bool) -> Result<
        PacketPayloadView,
        DecodeError,
    > {
        match PacketKind::spec_lookup(id) {
            None => Err(DecodeError::UnknownCommand),
            Some((kind, role)) => Self::parse_kind(
                kind,
                input,
                if ack {
                    MessageType::Ack
                } else {
                    role
                },
            ),
        }
    }
}

impl PacketPayload {
    /// Reads the payload `input` as the kind `kind` in the role `msg_type`.
    pub fn parse_kind(kind: PacketKind, input: &[u8], msg_type: MessageType) -> (r: Result<
        PacketPayload,
        DecodeError,
    >)
        ensures
            match r {
                Ok(p) => PacketPayloadView::parse_kind(kind, input@, msg_type) == Ok::<
                    PacketPayloadView,
                    DecodeError,
                >(p@),
                Err(e) => PacketPayloadView::parse_kind(kind, input@, msg_type) == Err::<
                    PacketPayloadView,
                    DecodeError,
                >(e),
            },
    {
        let parsed = match kind {
            PacketKind::Inquiry => match InquiryPacket::parse(input, msg_type) {
                Ok(p) => Some(PacketPayload::InquiryPacket(p)),
                Err(_) => None,
            },
            PacketKind::Mac => match MacPacket::parse(input, msg_type) {
                Ok(p) => Some(PacketPayload::MacPacket(p)),
                Err(_) => None,
            },
            PacketKind::Version => match VersionPacket::parse(input, msg_type) {
                Ok(p) => Some(PacketPayload::VersionPacket(p)),
                Err(_) => None,
            },
            PacketKind::SensorCount => match SensorCountPacket::parse(input, msg_type) {
                Ok(p) => Some(PacketPayload::SensorCountPacket(p)),
                Err(_) => None,
            },
            PacketKind::SensorList => match SensorListPacket::parse(input, msg_type) {
                Ok(p) => Some(PacketPayload::SensorListPacket(p)),
                Err(_) => None,
            },
            PacketKind::Auth => match AuthPacket::parse(input, msg_type) {
                Ok(p) => Some(PacketPayload::AuthPacket(p)),
                Err(_) => None,
            },
        };
        match parsed {
            Some(p) => Ok(p),
            None => Err(DecodeError::Malformed),
        }
    }

    /// Reads the payload `input` of a frame with the identifier `id`; `ack`
    /// tells whether the frame is an acknowledgement.
    pub fn parse(input: &[u8], id: u8, ack: bool) -> (r: Result<PacketPayload, DecodeError>)
        ensures
            match r {
                Ok(p) => PacketPayloadView::parse(input@, id, ack) == Ok::<
                    PacketPayloadView,
                    DecodeError,
                >(p@),
                Err(e) => PacketPayloadView::parse(input@, id, ack) == Err::<
                    PacketPayloadView,
                    DecodeError,
                >(e),
            },
    {
        match PacketKind::lookup(id) {
            Some((kind, role)) => Self::parse_kind(
                kind,
                input,
                if ack {
                    MessageType::Ack
                } else {
                    role
                },
            ),
            None => Err(DecodeError::UnknownCommand),
        }
    }

    /// Writes the payload as bytes.
    pub fn pack(&self) -> (out: Vec<u8>)
        ensures
            out@ == self@.packed(),
    {
        match self {
            PacketPayload::InquiryPacket(p) => p.pack(),
            PacketPayload::MacPacket(p) => p.pack(),
            PacketPayload::VersionPacket(p) => p.pack(),
            PacketPayload::SensorCountPacket(p) => p.pack(),
            PacketPayload::SensorListPacket(p) => p.pack(),
            PacketPayload::AuthPacket(p) => p.pack(),
        }
    }

    /// The role of the payload.
    pub fn message_type(&self) -> (t: MessageType)
        ensures
            t == self@.message_type(),
    {
        match self {
            PacketPayload::InquiryPacket(p) => p.message_type(),
            PacketPayload::MacPacket(p) => p.message_type(),
            PacketPayload::VersionPacket(p) => p.message_type(),
            PacketPayload::SensorCountPacket(p) => p.message_type(),
            PacketPayload::SensorListPacket(p) => p.message_type(),
            PacketPayload::AuthPacket(p) => p.message_type(),
        }
    }

    /// The kind of the payload.
    pub fn kind(&self) -> (k: PacketKind)
        ensures
            k == self@.kind(),
    {
        match self {
            PacketPayload::InquiryPacket(_) => PacketKind::Inquiry,
            PacketPayload::MacPacket(_) => PacketKind::Mac,
            PacketPayload::VersionPacket(_) => PacketKind::Version,
            PacketPayload::SensorCountPacket(_) => PacketKind::SensorCount,
            PacketPayload::SensorListPacket(_) => PacketKind::SensorList,
            PacketPayload::AuthPacket(_) => PacketKind::Auth,
        }
    }

    /// The identifier the payload travels under.
    pub fn command_id(&self) -> (id: u8)
        ensures
            id == self@.command_id(),
    {
        match self.message_type() {
            MessageType::Response => self.kind().rsp_id(),
            _ => self.kind().cmd_id(),
        }
    }
}

/// Reading the bytes of a payload as its kind and in its role gives the
/// payload back.
pub proof fn lemma_parse_kind_packed(value: PacketPayloadView)
    requires
        value.wf(),
    ensures
        PacketPayloadView::parse_kind(value.kind(), value.packed(), value.message_type()) == Ok::<
            PacketPayloadView,
            DecodeError,
        >(value),
{
    match value {
        PacketPayloadView::InquiryPacket(p) => InquiryPacket::lemma_parse_pack(p),
        PacketPayloadView::MacPacket(p) => MacPacket::lemma_parse_pack(p),
        PacketPayloadView::VersionPacket(p) => VersionPacket::lemma_parse_pack(p),
        PacketPayloadView::SensorCountPacket(p) => SensorCountPacket::lemma_parse_pack(p),
        PacketPayloadView::SensorListPacket(p) => SensorListPacket::lemma_parse_pack(p),
        PacketPayloadView::AuthPacket(p) => AuthPacket::lemma_parse_pack(p),
    }
}

/// Writing a payload that was read gives the bytes back that it was read
/// from, and the payload has the kind and the role it was read as.
pub proof fn lemma_packed_parse_kind(kind: PacketKind, input: Seq<u8>, msg_type: MessageType)
    requires
        PacketPayloadView::parse_kind(kind, input, msg_type) is Ok,
    ensures
        ({
            let value = PacketPayloadView::parse_kind(kind, input, msg_type)->Ok_0;
            &&& value.packed() == input
            &&& value.kind() == kind
            &&& value.message_type() == msg_type
        }),
{
    match kind {
        PacketKind::Inquiry => InquiryPacket::lemma_pack_parse(input, msg_type),
        PacketKind::Mac => MacPacket::lemma_pack_parse(input, msg_type),
        PacketKind::Version => VersionPacket::lemma_pack_parse(input, msg_type),
        PacketKind::SensorCount => SensorCountPacket::lemma_pack_parse(input, msg_type),
        PacketKind::SensorList => SensorListPacket::lemma_pack_parse(input, msg_type),
        PacketKind::Auth => AuthPacket::lemma_pack_parse(input, msg_type),
    }
}

/// Reading the bytes of a payload under its identifier gives the payload
/// back: for every kind, in each of its three forms.
///
/// The one exception are version records with a space inside a field, which
/// `wf` leaves out: such a record reads back with more than four fields.
pub proof fn lemma_parse_packed(value: PacketPayloadView)
    requires
        value.wf(),
    ensures
        PacketPayloadView::parse(
            value.packed(),
            value.command_id(),
            value.message_type() == MessageType::Ack,
        ) == Ok::<PacketPayloadView, DecodeError>(value),
{
    lemma_identifiers();
    lemma_parse_kind_packed(value);
}

/// A payload together with the namespace of the frame that carried it.
#[derive(PartialEq, Debug, Clone)]
pub struct PacketHandle {
    pub payload: PacketPayload,
    pub sync_type: PacketSyncType,
}

/// What a [`PacketHandle`] holds, as plain values.
pub struct PacketHandleView {
    pub payload: PacketPayloadView,
    pub sync_type: PacketSyncType,
}

impl View for PacketHandle {
    type V = PacketHandleView;

    open spec fn view(&self) -> PacketHandleView {
        PacketHandleView { payload: self.payload@, sync_type: self.sync_type }
    }
}

impl PacketHandleView {
    /// The frame that carries the payload from `source`: an acknowledgement
    /// frame for an acknowledgement, else a frame with the payload's bytes
    /// under the payload's identifier.
    pub open spec fn frame(self, source: PacketSource) -> FrameView {
        if self.payload.message_type() == MessageType::Ack {
            FrameView::ack(source, self.sync_type, self.payload.command_id())
        } else {
            FrameView::data(
                source,
                self.sync_type,
                self.payload.command_id(),
                self.payload.packed(),
            )
        }
    }
}

impl PacketHandle {
    /// Reads the payload `input` of a frame with the identifier `id` and the
    /// namespace `sync_type`; `ack` tells whether the frame is an
    /// acknowledgement.
    pub fn parse(input: &[u8], id: u8, ack: bool, sync_type: PacketSyncType) -> (r: Result<
        PacketHandle,
        DecodeError,
    >)
        ensures
            match r {
                Ok(handle) => PacketPayloadView::parse(input@, id, ack) == Ok::<
                    PacketPayloadView,
                    DecodeError,
                >(handle.payload@) && handle.sync_type == sync_type,
                Err(e) => PacketPayloadView::parse(input@, id, ack) == Err::<
                    PacketPayloadView,
                    DecodeError,
                >(e),
            },
    {
        match PacketPayload::parse(input, id, ack) {
            Ok(payload) => Ok(PacketHandle { payload, sync_type }),
            Err(e) => Err(e),
        }
    }

    /// The payload in the namespace of its kind.
    pub fn new(payload: PacketPayload) -> (handle: PacketHandle)
        ensures
            handle.payload == payload,
            handle.sync_type == payload@.kind().spec_sync_type(),
    {
        let sync_type = payload.kind().sync_type();
        PacketHandle { payload, sync_type }
    }

    /// Builds the frame that carries the payload from `source`.
    ///
    /// There is none when the payload is longer than a one-byte length can
    /// declare.
    pub fn frame(&self, source: PacketSource) -> (r: Option<Frame>)
        ensures
            r is Some <==> self@.payload.message_type() == MessageType::Ack
                || self@.payload.packed().len() <= MAX_PAYLOAD,
            r matches Some(f) ==> f@ == self@.frame(source) && f@.wf(),
    {
        proof {
            lemma_identifiers();
        }
        let id: u8 = self.payload.command_id();
        match self.payload.message_type() {
            MessageType::Ack => Some(Frame::ack(source, self.sync_type, id)),
            _ => Frame::new(source, self.sync_type, id, self.payload.pack()),
        }
    }
}

} // verus!
