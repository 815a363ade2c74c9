//! From bytes to a typed packet in one step: a scan for the next frame,
//! then the reading of its payload.

use crate::frame::{
    lemma_ack_frame_wf, lemma_data_frame_wf, lemma_scan_finds_encoded, scan, scan_spec,
    InvalidReason, PacketSource, ScanResult, ScanView, MAX_PAYLOAD,
};
use crate::packets::{lemma_identifiers, MessageType};
use crate::payload::{
    lemma_parse_packed, DecodeError, PacketHandle, PacketHandleView, PacketPayloadView,
};
use vstd::prelude::*;

verus! {

/// What the next frame of a buffer turned out to be.
#[derive(Clone, Debug, PartialEq)]
pub enum Message {
    /// A frame with a payload that was read.
    Packet(PacketHandle),
    /// No complete frame yet.
    NoFrame,
    /// No frame at the marker.
    Invalid(InvalidReason),
    /// A frame whose identifier `id` no kind has.
    UnknownCommand { id: u8 },
    /// A frame whose payload does not fit the form that `id` asks for.
    Malformed { id: u8 },
}

/// A [`Message`] as plain values.
pub enum MessageView {
    Packet(PacketHandleView),
    NoFrame,
    Invalid(InvalidReason),
    UnknownCommand { id: u8 },
    Malformed { id: u8 },
}

impl View for Message {
    type V = MessageView;

    open spec fn view(&self) -> MessageView {
        match self {
            Message::Packet(handle) => MessageView::Packet(handle@),
            Message::NoFrame => MessageView::NoFrame,
            Message::Invalid(reason) => MessageView::Invalid(*reason),
            Message::UnknownCommand { id } => MessageView::UnknownCommand { id: *id },
            Message::Malformed { id } => MessageView::Malformed { id: *id },
        }
    }
}

/// What a scan result stands for once its payload is read.
pub open spec fn message_of(found: ScanView) -> MessageView {
    match found {
        ScanView::NoFrame => MessageView::NoFrame,
        ScanView::Invalid(reason) => MessageView::Invalid(reason),
        ScanView::Frame(f) => match PacketPayloadView::parse(
            f.payload,
            f.command_id(),
            f.is_ack(),
        ) {
            Ok(payload) => MessageView::Packet(
                PacketHandleView { payload, sync_type: f.sync_type },
            ),
            Err(DecodeError::UnknownCommand) => MessageView::UnknownCommand { id: f.command_id() },
            Err(DecodeError::Malformed) => MessageView::Malformed { id: f.command_id() },
        },
    }
}

/// The next message of `b` and the number of bytes that are done with.
pub open spec fn find_msg_spec(b: Seq<u8>) -> (MessageView, int) {
    (message_of(scan_spec(b).0), scan_spec(b).1)
}

/// Reads the payload of a scan result.
pub fn read_message(found: ScanResult) -> (message: Message)
    ensures
        message@ == message_of(found@),
{
    match found {
        ScanResult::NoFrame => Message::NoFrame,
        ScanResult::Invalid(reason) => Message::Invalid(reason),
        ScanResult::Frame(frame) => {
            let id: u8 = frame.command_id();
            match PacketHandle::parse(
                frame.payload.as_slice(),
                id,
                frame.is_ack(),
                frame.sync_type,
            ) {
                Ok(handle) => Message::Packet(handle),
                Err(DecodeError::UnknownCommand) => Message::UnknownCommand { id },
                Err(DecodeError::Malformed) => Message::Malformed { id },
            }
        },
    }
}

/// Finds the next message in `input`.
///
/// Returns the message and how many leading bytes of `input` are done with.
/// Nothing here is fatal: after a refusal, an unknown command or a malformed
/// payload the caller drops the bytes consumed and goes on.
pub fn find_msg(input: &[u8]) -> (r: (Message, usize))
    ensures
        (r.0@, r.1 as int) == find_msg_spec(input@),
        r.1 <= input.len(),
{
    let (found, consumed) = scan(input);
    (read_message(found), consumed)
}

/// A payload that was framed is found again, whatever follows the frame:
/// the same payload, the same namespace, and exactly the frame's bytes
/// consumed.
pub proof fn lemma_find_msg_finds_framed(
    handle: PacketHandleView,
    source: PacketSource,
    tail: Seq<u8>,
)
    requires
        handle.payload.wf(),
        handle.payload.packed().len() <= MAX_PAYLOAD,
    ensures
        find_msg_spec(handle.frame(source).wire() + tail) == (
            MessageView::Packet(handle),
            handle.frame(source).wire().len() as int,
        ),
{
    let f = handle.frame(source);
    lemma_identifiers();
    lemma_ack_frame_wf(source, handle.sync_type, handle.payload.command_id());
    if handle.payload.message_type() != MessageType::Ack {
        lemma_data_frame_wf(
            source,
            handle.sync_type,
            handle.payload.command_id(),
            handle.payload.packed(),
        );
    }
    lemma_scan_finds_encoded(f, tail);
    lemma_parse_packed(handle.payload);
    if handle.payload.message_type() == MessageType::Ack {
        assert(f.payload =~= handle.payload.packed());
    }
}

} // verus!
