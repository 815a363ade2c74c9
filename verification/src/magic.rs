//! Cutting the next message out of a byte stream: the frame is found and
//! judged as a scan does, and handed out as the namespace, field B and the
//! payload, together with the bytes that follow it.

use crate::frame::{
    lemma_scan_finds_encoded, lemma_scan_refuses_corrupted, lemma_scan_spec_bounds, scan,
    scan_spec, FrameView, InvalidReason, PacketSyncType, ScanResult, ScanView, ACK_SENTINEL,
    LENGTH_OVERHEAD,
};
use vstd::prelude::*;
use vstd::slice::slice_subrange;

verus! {

/// The namespace of a message.
#[derive(Clone, Copy, Debug, PartialEq, Eq, Structural)]
pub enum PacketType {
    Async,
    Sync,
}

/// A message as cut out of the byte stream.
#[derive(Clone, Debug, PartialEq, Eq)]
pub struct RawMessage {
    /// The namespace of the type byte.
    pub cmd_type: PacketType,
    /// Field B of the header: the command identifier, or `FF` for an
    /// acknowledgement.
    pub cmd_id: u8,
    /// The bytes between the header and the checksum.
    pub payload: Vec<u8>,
}

/// What a [`RawMessage`] holds, as plain values.
pub struct RawMessageView {
    pub cmd_type: PacketType,
    pub cmd_id: u8,
    pub payload: Seq<u8>,
}

impl View for RawMessage {
    type V = RawMessageView;

    open spec fn view(&self) -> RawMessageView {
        RawMessageView { cmd_type: self.cmd_type, cmd_id: self.cmd_id, payload: self.payload@ }
    }
}

/// Why no message could be cut out.
#[derive(Clone, Copy, Debug, PartialEq, Eq, Structural)]
pub enum ParseError {
    /// Neither marker occurs.
    MissingLeader,
    /// A marker occurs, and the bytes end before the message does.
    Incomplete,
    /// The byte after the marker names neither namespace.
    UnknownType { byte: u8 },
    /// The declared length is below 3, which leaves no room for the
    /// identifier and the checksum.
    BadLength { length: u8 },
    /// The trailing checksum (`expected`) is not the one of the bytes received
    /// (`computed`).
    Checksum { expected: u16, computed: u16 },
}

/// The namespace of a message in a frame's namespace.
pub open spec fn type_of(sync_type: PacketSyncType) -> PacketType {
    match sync_type {
        PacketSyncType::Async => PacketType::Async,
        PacketSyncType::Sync => PacketType::Sync,
    }
}

/// The message that `msg` begins with after any noise, and the number of
/// bytes up to the end of that message's checksum.
///
/// The message is the frame that a scan of `msg` finds. Where the scan
/// refuses what follows the marker, the refusal is the error; where it finds
/// no frame, the error tells whether a whole marker was there.
pub open spec fn parse_spec(msg: Seq<u8>) -> Result<(int, RawMessageView), ParseError> {
    let found = scan_spec(msg);
    match found.0 {
        ScanView::Frame(f) => Ok(
            (
                found.1,
                RawMessageView {
                    cmd_type: type_of(f.sync_type),
                    cmd_id: f.ack_or_id,
                    payload: f.payload,
                },
            ),
        ),
        ScanView::Invalid(InvalidReason::UnknownType { byte }) => Err(
            ParseError::UnknownType { byte },
        ),
        ScanView::Invalid(InvalidReason::BadLength { length }) => Err(
            ParseError::BadLength { length },
        ),
        ScanView::Invalid(InvalidReason::Checksum { expected, computed }) => Err(
            ParseError::Checksum { expected, computed },
        ),
        ScanView::NoFrame => if found.1 + 2 <= msg.len() {
            Err(ParseError::Incomplete)
        } else {
            Err(ParseError::MissingLeader)
        },
    }
}

/// A well-formed frame that is followed by anything at all is cut out whole:
/// its namespace, its field B and its payload, with exactly the frame's
/// bytes used.
pub proof fn lemma_parse_finds_encoded(f: FrameView, tail: Seq<u8>)
    requires
        f.wf(),
    ensures
        parse_spec(f.wire() + tail) == Ok::<(int, RawMessageView), ParseError>(
            (
                f.wire().len() as int,
                RawMessageView {
                    cmd_type: type_of(f.sync_type),
                    cmd_id: f.ack_or_id,
                    payload: f.payload,
                },
            ),
        ),
{
    lemma_scan_finds_encoded(f, tail);
}

/// A frame in which one byte after the marker was replaced yields no
/// message, whatever follows it. The bytes that may be replaced are those of
/// [`lemma_scan_refuses_corrupted`]: every one but a declared length that
/// stays 3 or more, and but a change to or from the acknowledgement sentinel.
pub proof fn lemma_parse_refuses_corrupted(f: FrameView, k: int, v: u8, tail: Seq<u8>)
    requires
        f.wf(),
        2 <= k < f.wire().len(),
        v != f.wire()[k],
        k == 3 ==> f.is_ack() || v < LENGTH_OVERHEAD,
        k == 4 ==> !f.is_ack() && v != ACK_SENTINEL,
    ensures
        parse_spec(f.wire().update(k, v) + tail) is Err,
        !(parse_spec(f.wire().update(k, v) + tail) matches Err(ParseError::Incomplete)),
        !(parse_spec(f.wire().update(k, v) + tail) matches Err(ParseError::MissingLeader)),
{
    lemma_scan_refuses_corrupted(f, k, v, tail);
}

/// Cuts the first message out of `msg`.
///
/// Bytes before the first marker are passed over. Returns what follows the
/// message, and the message; or the reason why there is none.
pub fn parse(msg: &[u8]) -> (r: Result<(&[u8], RawMessage), ParseError>)
    ensures
        match r {
            Ok((rest, message)) => {
                &&& parse_spec(msg@) matches Ok((used, view))
                &&& rest@ == msg@.skip(used)
                &&& message@ == view
            },
            Err(e) => parse_spec(msg@) == Err::<(int, RawMessageView), ParseError>(e),
        },
{
    let len: usize = msg.len();
    let (found, consumed) = scan(msg);
    proof {
        lemma_scan_spec_bounds(msg@);
    }
    match found {
        ScanResult::Frame(frame) => {
            let rest = slice_subrange(msg, consumed, len);
            assert(msg@.subrange(consumed as int, len as int) =~= msg@.skip(consumed as int));
            let cmd_type = match frame.sync_type {
                PacketSyncType::Async => PacketType::Async,
                PacketSyncType::Sync => PacketType::Sync,
            };
            Ok((rest, RawMessage { cmd_type, cmd_id: frame.ack_or_id, payload: frame.payload }))
        },
        ScanResult::Invalid(InvalidReason::UnknownType { byte }) => Err(
            ParseError::UnknownType { byte },
        ),
        ScanResult::Invalid(InvalidReason::BadLength { length }) => Err(
            ParseError::BadLength { length },
        ),
        ScanResult::Invalid(InvalidReason::Checksum { expected, computed }) => Err(
            ParseError::Checksum { expected, computed },
        ),
        ScanResult::NoFrame => if len - consumed >= 2 {
            Err(ParseError::Incomplete)
        } else {
            Err(ParseError::MissingLeader)
        },
    }
}

} // verus!
