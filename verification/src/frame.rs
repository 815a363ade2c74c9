//! Frames on the wire: their layout, how one is found in a byte buffer and
//! how one is written out.
//!
//! ```text
//! [marker: 2]   55 AA (bridge to host) or AA 55 (host to bridge)
//! [type: 1]     43 = sync, 53 = async
//! [field A: 1]  declared length, or the acknowledged identifier
//! [field B: 1]  command identifier, or FF for an acknowledgement
//! [payload: N]  N = declared length - 3
//! [checksum: 2] big-endian, seed 00FF, over type .. end of payload
//! ```
//!
//! The marker bytes are not escaped: a payload may hold them, and a scan that
//! starts inside such a payload locks onto them.

use crate::checksum::{
    byte_sum, checksum, checksum_of, lemma_byte_sum_concat, lemma_byte_sum_update,
};
use vstd::prelude::*;
use vstd::slice::{slice_subrange, slice_to_vec};

verus! {

/// First byte of the bridge-to-host marker, second byte of the host-to-bridge one.
pub const MARKER_LOW: u8 = 0x55;

/// Second byte of the bridge-to-host marker, first byte of the host-to-bridge one.
pub const MARKER_HIGH: u8 = 0xAA;

/// Type byte of a synchronous frame.
pub const TYPE_SYNC: u8 = 0x43;

/// Type byte of an asynchronous frame.
pub const TYPE_ASYNC: u8 = 0x53;

/// Value of field B that turns a frame into an acknowledgement.
pub const ACK_SENTINEL: u8 = 0xFF;

/// Bytes that the declared length counts besides the payload: the command
/// identifier and the two checksum bytes.
pub const LENGTH_OVERHEAD: u8 = 3;

/// Largest payload that a declared length of one byte can announce.
pub const MAX_PAYLOAD: usize = 252;

/// Which side sent a frame, as told by its marker.
#[derive(Clone, Copy, Debug, PartialEq, Eq, Structural)]
pub enum PacketSource {
    /// `55 AA`: from the bridge to the host.
    Bridge,
    /// `AA 55`: from the host to the bridge.
    Host,
}

/// The two command namespaces a type byte can name.
#[derive(Clone, Copy, Debug, PartialEq, Eq, Structural)]
pub enum PacketSyncType {
    /// Type byte `53`.
    Async,
    /// Type byte `43`.
    Sync,
}

impl PacketSyncType {
    /// The namespace that a type byte names, if it names one.
    pub open spec fn spec_from_u8(byte: u8) -> Option<PacketSyncType> {
        if byte == TYPE_ASYNC {
            Some(PacketSyncType::Async)
        } else if byte == TYPE_SYNC {
            Some(PacketSyncType::Sync)
        } else {
            None
        }
    }

    /// The type byte of a namespace.
    pub open spec fn spec_to_u8(self) -> u8 {
        match self {
            PacketSyncType::Async => TYPE_ASYNC,
            PacketSyncType::Sync => TYPE_SYNC,
        }
    }

    /// Reads a type byte.
    pub fn from_u8(byte: u8) -> (r: Option<PacketSyncType>)
        ensures
            r == Self::spec_from_u8(byte),
    {
        if byte == TYPE_ASYNC {
            Some(PacketSyncType::Async)
        } else if byte == TYPE_SYNC {
            Some(PacketSyncType::Sync)
        } else {
            None
        }
    }

    /// Writes a type byte.
    pub fn to_u8(&self) -> (byte: u8)
        ensures
            byte == self.spec_to_u8(),
            Self::spec_from_u8(byte) == Some(*self),
    {
        match self {
            PacketSyncType::Async => TYPE_ASYNC,
            PacketSyncType::Sync => TYPE_SYNC,
        }
    }
}

impl PacketSource {
    /// The side whose marker begins with `first`. Only the two marker bytes
    /// are meaningful arguments.
    pub open spec fn spec_from_first(first: u8) -> PacketSource {
        if first == MARKER_LOW {
            PacketSource::Bridge
        } else {
            PacketSource::Host
        }
    }

    /// The two marker bytes of a side, in wire order.
    pub open spec fn marker(self) -> Seq<u8> {
        match self {
            PacketSource::Bridge => seq![MARKER_LOW, MARKER_HIGH],
            PacketSource::Host => seq![MARKER_HIGH, MARKER_LOW],
        }
    }
}

/// True when `a`, `b` are one of the two markers.
pub open spec fn is_marker(a: u8, b: u8) -> bool {
    (a == MARKER_LOW && b == MARKER_HIGH) || (a == MARKER_HIGH && b == MARKER_LOW)
}

/// One frame, with the two overloaded header bytes as they stand on the wire.
#[derive(Clone, Debug, PartialEq, Eq)]
pub struct Frame {
    /// The side that sent it.
    pub source: PacketSource,
    /// The namespace of its type byte.
    pub sync_type: PacketSyncType,
    /// Field A: the declared length, or the acknowledged identifier.
    pub length_or_id: u8,
    /// Field B: the command identifier, or `FF`.
    pub ack_or_id: u8,
    /// The bytes between the header and the checksum.
    pub payload: Vec<u8>,
    /// The trailing checksum.
    pub checksum: u16,
}

/// What a [`Frame`] holds, as plain values.
pub struct FrameView {
    pub source: PacketSource,
    pub sync_type: PacketSyncType,
    pub length_or_id: u8,
    pub ack_or_id: u8,
    pub payload: Seq<u8>,
    pub checksum: u16,
}

impl View for Frame {
    type V = FrameView;

    open spec fn view(&self) -> FrameView {
        FrameView {
            source: self.source,
            sync_type: self.sync_type,
            length_or_id: self.length_or_id,
            ack_or_id: self.ack_or_id,
            payload: self.payload@,
            checksum: self.checksum,
        }
    }
}

impl FrameView {
    /// An acknowledgement is a frame whose field B is the sentinel.
    pub open spec fn is_ack(self) -> bool {
        self.ack_or_id == ACK_SENTINEL
    }

    /// The identifier of the command the frame carries or acknowledges.
    pub open spec fn command_id(self) -> u8 {
        if self.is_ack() {
            self.length_or_id
        } else {
            self.ack_or_id
        }
    }

    /// The length the header stands for: fixed at 3 for an acknowledgement.
    pub open spec fn declared_length(self) -> int {
        if self.is_ack() {
            LENGTH_OVERHEAD as int
        } else {
            self.length_or_id as int
        }
    }

    /// The bytes the checksum runs over: type byte through end of payload.
    pub open spec fn covered(self) -> Seq<u8> {
        seq![self.sync_type.spec_to_u8(), self.length_or_id, self.ack_or_id] + self.payload
    }

    /// The frame's invariants: the declared length is at least 3, the payload
    /// is 3 bytes shorter than it, and the checksum is that of the covered
    /// bytes.
    pub open spec fn wf(self) -> bool {
        &&& self.declared_length() >= LENGTH_OVERHEAD as int
        &&& self.payload.len() == self.declared_length() - LENGTH_OVERHEAD as int
        &&& self.checksum == checksum_of(self.covered())
    }

    /// The frame as bytes on the wire.
    pub open spec fn wire(self) -> Seq<u8> {
        self.source.marker() + self.covered() + seq![
            (self.checksum / 256) as u8,
            (self.checksum % 256) as u8,
        ]
    }
}

impl FrameView {
    /// The frame that carries `payload` under the identifier `id`.
    pub open spec fn data(
        source: PacketSource,
        sync_type: PacketSyncType,
        id: u8,
        payload: Seq<u8>,
    ) -> FrameView {
        let length = (payload.len() + LENGTH_OVERHEAD as int) as u8;
        FrameView {
            source,
            sync_type,
            length_or_id: length,
            ack_or_id: id,
            payload,
            checksum: checksum_of(seq![sync_type.spec_to_u8(), length, id] + payload),
        }
    }

    /// The frame that acknowledges the identifier `id`.
    pub open spec fn ack(source: PacketSource, sync_type: PacketSyncType, id: u8) -> FrameView {
        FrameView {
            source,
            sync_type,
            length_or_id: id,
            ack_or_id: ACK_SENTINEL,
            payload: Seq::empty(),
            checksum: checksum_of(seq![sync_type.spec_to_u8(), id, ACK_SENTINEL]),
        }
    }
}

/// Computes the checksum of a frame with the given type, header fields and
/// payload.
fn frame_checksum(sync_type: PacketSyncType, field_a: u8, field_b: u8, payload: &Vec<u8>) -> (sum:
    u16)
    ensures
        sum == checksum_of(seq![sync_type.spec_to_u8(), field_a, field_b] + payload@),
{
    let ghost head = seq![sync_type.spec_to_u8(), field_a, field_b];
    let mut covered: Vec<u8> = Vec::new();
    covered.push(sync_type.to_u8());
    covered.push(field_a);
    covered.push(field_b);
    assert(covered@ =~= head + payload@.take(0));
    let mut i: usize = 0;
    while i < payload.len()
        invariant
            i <= payload.len(),
            covered@ == head + payload@.take(i as int),
        decreases payload.len() - i,
    {
        covered.push(payload[i]);
        i += 1;
        assert(payload@.take(i as int) =~= payload@.take(i - 1).push(payload@[i - 1]));
        assert(covered@ =~= head + payload@.take(i as int));
    }
    assert(payload@.take(i as int) =~= payload@);
    checksum(covered.as_slice())
}

impl Frame {
    /// Builds the frame that carries `payload` under the identifier `id`.
    ///
    /// There is none when `id` is the acknowledgement sentinel, which field B
    /// cannot hold as an identifier, or when the payload is longer than a
    /// one-byte length can declare.
    pub fn new(source: PacketSource, sync_type: PacketSyncType, id: u8, payload: Vec<u8>) -> (r:
        Option<Frame>)
        ensures
            r is Some <==> id != ACK_SENTINEL && payload.len() <= MAX_PAYLOAD,
            r matches Some(f) ==> f@ == FrameView::data(source, sync_type, id, payload@) && f@.wf()
                && !f@.is_ack() && f@.command_id() == id,
    {
        if id == ACK_SENTINEL || payload.len() > MAX_PAYLOAD {
            return None;
        }
        let length: u8 = (payload.len() + LENGTH_OVERHEAD as usize) as u8;
        let sum: u16 = frame_checksum(sync_type, length, id, &payload);
        Some(Frame { source, sync_type, length_or_id: length, ack_or_id: id, payload, checksum: sum })
    }

    /// Builds the frame that acknowledges the identifier `id`.
    pub fn ack(source: PacketSource, sync_type: PacketSyncType, id: u8) -> (f: Frame)
        ensures
            f@ == FrameView::ack(source, sync_type, id),
            f@.wf(),
            f@.is_ack(),
            f@.command_id() == id,
    {
        let payload: Vec<u8> = Vec::new();
        assert(seq![sync_type.spec_to_u8(), id, ACK_SENTINEL] + payload@ =~= seq![
            sync_type.spec_to_u8(),
            id,
            ACK_SENTINEL,
        ]);
        let sum: u16 = frame_checksum(sync_type, id, ACK_SENTINEL, &payload);
        Frame {
            source,
            sync_type,
            length_or_id: id,
            ack_or_id: ACK_SENTINEL,
            payload,
            checksum: sum,
        }
    }

    /// Tests the frame's invariants: the declared length, the payload's
    /// length and the checksum.
    pub fn is_valid(&self) -> (ok: bool)
        ensures
            ok == self@.wf(),
    {
        let declared: usize = if self.ack_or_id == ACK_SENTINEL {
            LENGTH_OVERHEAD as usize
        } else {
            self.length_or_id as usize
        };
        if declared < LENGTH_OVERHEAD as usize || self.payload.len() != declared
            - LENGTH_OVERHEAD as usize {
            return false;
        }
        self.checksum == frame_checksum(
            self.sync_type,
            self.length_or_id,
            self.ack_or_id,
            &self.payload,
        )
    }

    /// True when the frame is an acknowledgement.
    pub fn is_ack(&self) -> (r: bool)
        ensures
            r == self@.is_ack(),
    {
        self.ack_or_id == ACK_SENTINEL
    }

    /// The identifier of the command the frame carries or acknowledges.
    pub fn command_id(&self) -> (id: u8)
        ensures
            id == self@.command_id(),
    {
        if self.ack_or_id == ACK_SENTINEL {
            self.length_or_id
        } else {
            self.ack_or_id
        }
    }

    /// Writes the frame as it goes on the wire: marker, type byte, the two
    /// header bytes, the payload and the checksum, high byte first.
    pub fn encode(&self) -> (out: Vec<u8>)
        ensures
            out@ == self@.wire(),
    {
        let mut out: Vec<u8> = Vec::new();
        match self.source {
            PacketSource::Bridge => {
                out.push(MARKER_LOW);
                out.push(MARKER_HIGH);
            },
            PacketSource::Host => {
                out.push(MARKER_HIGH);
                out.push(MARKER_LOW);
            },
        }
        out.push(self.sync_type.to_u8());
        out.push(self.length_or_id);
        out.push(self.ack_or_id);
        let ghost head = out@;
        assert(head =~= self@.source.marker() + seq![
            self@.sync_type.spec_to_u8(),
            self@.length_or_id,
            self@.ack_or_id,
        ]);
        let mut i: usize = 0;
        while i < self.payload.len()
            invariant
                i <= self.payload.len(),
                out@ == head + self.payload@.take(i as int),
            decreases self.payload.len() - i,
        {
            out.push(self.payload[i]);
            i += 1;
            assert(self.payload@.take(i as int) =~= self.payload@.take(i - 1).push(
                self.payload@[i - 1],
            ));
            assert(out@ =~= head + self.payload@.take(i as int));
        }
        assert(self.payload@.take(i as int) =~= self.payload@);
        out.push((self.checksum / 256) as u8);
        out.push((self.checksum % 256) as u8);
        assert(out@ =~= self@.wire());
        out
    }
}

/// Why a frame was refused.
#[derive(Clone, Copy, Debug, PartialEq, Eq, Structural)]
pub enum InvalidReason {
    /// The byte after the marker names neither namespace.
    UnknownType { byte: u8 },
    /// The declared length leaves no room for the identifier and the checksum.
    BadLength { length: u8 },
    /// The trailing checksum (`expected`) is not the one of the bytes received
    /// (`computed`).
    Checksum { expected: u16, computed: u16 },
}

/// The outcome of one scan.
#[derive(Clone, Debug, PartialEq, Eq)]
pub enum ScanResult {
    /// A complete frame with a matching checksum.
    Frame(Frame),
    /// The buffer holds no complete frame yet: keep what was not consumed,
    /// append what arrives, and scan again.
    NoFrame,
    /// A marker was followed by something that is no frame.
    Invalid(InvalidReason),
}

/// A [`ScanResult`] as plain values.
pub enum ScanView {
    Frame(FrameView),
    NoFrame,
    Invalid(InvalidReason),
}

impl View for ScanResult {
    type V = ScanView;

    open spec fn view(&self) -> ScanView {
        match self {
            ScanResult::Frame(f) => ScanView::Frame(f@),
            ScanResult::NoFrame => ScanView::NoFrame,
            ScanResult::Invalid(reason) => ScanView::Invalid(*reason),
        }
    }
}

/// True when a marker may begin at index `i`: either a whole marker stands
/// there, or `i` is the last byte and holds a marker's first half.
pub open spec fn may_start_marker(b: Seq<u8>, i: int) -> bool
    recommends
        0 <= i < b.len(),
{
    if i + 1 < b.len() {
        is_marker(b[i], b[i + 1])
    } else {
        b[i] == MARKER_LOW || b[i] == MARKER_HIGH
    }
}

/// The first index at or after `i` where a marker may begin, or the length
/// of `b` if there is none.
pub open spec fn noise_from(b: Seq<u8>, i: int) -> int
    decreases b.len() - i,
{
    if i < 0 || i >= b.len() {
        b.len() as int
    } else if may_start_marker(b, i) {
        i
    } else {
        noise_from(b, i + 1)
    }
}

/// The number of leading bytes that no frame can begin in.
pub open spec fn noise_len(b: Seq<u8>) -> int {
    noise_from(b, 0)
}

/// The big-endian 16-bit number made of two bytes.
pub open spec fn be_u16(high: u8, low: u8) -> u16 {
    (high as int * 256 + low as int) as u16
}

/// Reads a frame from `s`, which begins at a marker. The number is how many
/// bytes of `s` the result accounts for; it is 0 when bytes are missing.
#[verifier::opaque]
pub open spec fn frame_at(s: Seq<u8>) -> (ScanView, int) {
    if s.len() < 3 {
        (ScanView::NoFrame, 0)
    } else {
        match PacketSyncType::spec_from_u8(s[2]) {
            None => (ScanView::Invalid(InvalidReason::UnknownType { byte: s[2] }), 3),
            Some(sync_type) => {
                if s.len() < 5 {
                    (ScanView::NoFrame, 0)
                } else {
                    let declared = if s[4] == ACK_SENTINEL {
                        LENGTH_OVERHEAD as int
                    } else {
                        s[3] as int
                    };
                    let end = 2 + declared;
                    if declared < LENGTH_OVERHEAD as int {
                        (ScanView::Invalid(InvalidReason::BadLength { length: s[3] }), 5)
                    } else if s.len() < end + 2 {
                        (ScanView::NoFrame, 0)
                    } else {
                        let expected = be_u16(s[end], s[end + 1]);
                        let computed = checksum_of(s.subrange(2, end));
                        if expected != computed {
                            (
                                ScanView::Invalid(InvalidReason::Checksum { expected, computed }),
                                end + 2,
                            )
                        } else {
                            (
                                ScanView::Frame(
                                    FrameView {
                                        source: PacketSource::spec_from_first(s[0]),
                                        sync_type,
                                        length_or_id: s[3],
                                        ack_or_id: s[4],
                                        payload: s.subrange(5, end),
                                        checksum: expected,
                                    },
                                ),
                                end + 2,
                            )
                        }
                    }
                }
            },
        }
    }
}

/// What one scan of `b` yields, and how many leading bytes of `b` it consumes.
///
/// The bytes before the first marker are noise and always consumed. What
/// follows the marker is read by [`frame_at`]; where that runs out of bytes
/// the marker and all after it stay unconsumed.
pub open spec fn scan_spec(b: Seq<u8>) -> (ScanView, int) {
    let noise = noise_len(b);
    let found = frame_at(b.skip(noise));
    (found.0, noise + found.1)
}

/// `noise_from` finds an index in range, at which a marker may begin unless
/// it is the end, and before which (from `i` on) none may.
pub proof fn lemma_noise_from_bounds(b: Seq<u8>, i: int)
    requires
        0 <= i <= b.len(),
    ensures
        i <= noise_from(b, i) <= b.len(),
        noise_from(b, i) < b.len() ==> may_start_marker(b, noise_from(b, i)),
        forall|j: int| i <= j < noise_from(b, i) ==> !may_start_marker(b, j),
    decreases b.len() - i,
{
    if i < b.len() && !may_start_marker(b, i) {
        lemma_noise_from_bounds(b, i + 1);
    }
}

/// An index with the properties of `noise_len` is `noise_len`.
pub proof fn lemma_noise_len_unique(b: Seq<u8>, n: int)
    requires
        0 <= n <= b.len(),
        n < b.len() ==> may_start_marker(b, n),
        forall|j: int| 0 <= j < n ==> !may_start_marker(b, j),
    ensures
        noise_len(b) == n,
{
    lemma_noise_from_bounds(b, 0);
    let m = noise_len(b);
    if m < n {
        assert(!may_start_marker(b, m));
    } else if n < m {
        assert(!may_start_marker(b, n));
    }
}

/// Tests whether a marker may begin at `i`.
fn marker_may_start(buffer: &[u8], i: usize) -> (r: bool)
    requires
        i < buffer.len(),
    ensures
        r == may_start_marker(buffer@, i as int),
{
    let first: u8 = buffer[i];
    if i + 1 < buffer.len() {
        let second: u8 = buffer[i + 1];
        (first == MARKER_LOW && second == MARKER_HIGH) || (first == MARKER_HIGH && second
            == MARKER_LOW)
    } else {
        first == MARKER_LOW || first == MARKER_HIGH
    }
}

/// Counts the leading bytes of `buffer` in which no frame can begin.
pub fn skip_noise(buffer: &[u8]) -> (n: usize)
    ensures
        n as int == noise_len(buffer@),
        n <= buffer.len(),
{
    let mut i: usize = 0;
    while i < buffer.len() && !marker_may_start(buffer, i)
        invariant
            i <= buffer.len(),
            forall|j: int| 0 <= j < i ==> !may_start_marker(buffer@, j),
        decreases buffer.len() - i,
    {
        i += 1;
    }
    proof {
        lemma_noise_len_unique(buffer@, i as int);
    }
    i
}

/// Scans `buffer` for the next frame.
///
/// Returns what was found and how many leading bytes of `buffer` are done
/// with. The caller drops exactly that many bytes; after `NoFrame` it
/// appends what arrives next before it scans again. Never fails: every
/// malformed input is an `Invalid` or a `NoFrame`.
pub fn scan(buffer: &[u8]) -> (r: (ScanResult, usize))
    ensures
        (r.0@, r.1 as int) == scan_spec(buffer@),
        r.1 <= buffer.len(),
{
    let len: usize = buffer.len();
    let start: usize = skip_noise(buffer);
    let ghost s = buffer@.skip(start as int);
    proof {
        reveal(frame_at);
    }
    let avail: usize = len - start;
    if avail < 3 {
        return (ScanResult::NoFrame, start);
    }
    assert(s[0] == buffer@[start as int] && s[2] == buffer@[start + 2]);
    let type_byte: u8 = buffer[start + 2];
    let sync_type = match PacketSyncType::from_u8(type_byte) {
        Some(t) => t,
        None => {
            return (
                ScanResult::Invalid(InvalidReason::UnknownType { byte: type_byte }),
                start + 3,
            );
        },
    };
    if avail < 5 {
        return (ScanResult::NoFrame, start);
    }
    assert(s[3] == buffer@[start + 3] && s[4] == buffer@[start + 4]);
    let length_or_id: u8 = buffer[start + 3];
    let ack_or_id: u8 = buffer[start + 4];
    let declared: u8 = if ack_or_id == ACK_SENTINEL {
        LENGTH_OVERHEAD
    } else {
        length_or_id
    };
    if declared < LENGTH_OVERHEAD {
        return (
            ScanResult::Invalid(InvalidReason::BadLength { length: length_or_id }),
            start + 5,
        );
    }
    let end: usize = 2 + declared as usize;
    if avail < end + 2 {
        return (ScanResult::NoFrame, start);
    }
    assert(s[end as int] == buffer@[start + end] && s[end + 1] == buffer@[start + end + 1]);
    assert(s.subrange(2, end as int) =~= buffer@.subrange(start + 2, start + end));
    assert(s.subrange(5, end as int) =~= buffer@.subrange(start + 5, start + end));
    let expected: u16 = buffer[start + end] as u16 * 256 + buffer[start + end + 1] as u16;
    let computed: u16 = checksum(slice_subrange(buffer, start + 2, start + end));
    if expected != computed {
        return (
            ScanResult::Invalid(InvalidReason::Checksum { expected, computed }),
            start + end + 2,
        );
    }
    let source = if buffer[start] == MARKER_LOW {
        PacketSource::Bridge
    } else {
        PacketSource::Host
    };
    let payload: Vec<u8> = slice_to_vec(slice_subrange(buffer, start + 5, start + end));
    let frame = Frame { source, sync_type, length_or_id, ack_or_id, payload, checksum: expected };
    (ScanResult::Frame(frame), start + end + 2)
}

/// A scan never consumes more than the buffer holds, and a result other than
/// `NoFrame` consumes at least the marker and the type byte.
pub proof fn lemma_scan_spec_bounds(b: Seq<u8>)
    ensures
        0 <= scan_spec(b).1 <= b.len(),
        !(scan_spec(b).0 is NoFrame) ==> scan_spec(b).1 >= 3,
        scan_spec(b).0 is NoFrame ==> scan_spec(b).1 == noise_len(b),
{
    reveal(frame_at);
    lemma_noise_from_bounds(b, 0);
}

/// The seed stands for the marker: the checksum over type byte through
/// payload is the plain sum, modulo 2^16, of every byte of the frame before
/// the checksum, the two marker bytes included.
pub proof fn lemma_seed_counts_marker(f: FrameView)
    ensures
        checksum_of(f.covered()) as int == byte_sum(f.source.marker() + f.covered()) % 0x1_0000,
{
    let m = f.source.marker();
    lemma_byte_sum_concat(m, f.covered());
    assert(m.drop_last() =~= seq![m[0]]);
    assert(m.drop_last().drop_last() =~= Seq::<u8>::empty());
    assert(byte_sum(m) == byte_sum(m.drop_last()) + m[1]);
    assert(byte_sum(m.drop_last()) == byte_sum(m.drop_last().drop_last()) + m[0]);
    assert(byte_sum(m) == 0xFF);
}

/// A frame built for a payload of at most 252 bytes and an identifier other
/// than `FF` is well-formed, and carries that identifier.
pub proof fn lemma_data_frame_wf(
    source: PacketSource,
    sync_type: PacketSyncType,
    id: u8,
    payload: Seq<u8>,
)
    requires
        id != ACK_SENTINEL,
        payload.len() <= MAX_PAYLOAD,
    ensures
        FrameView::data(source, sync_type, id, payload).wf(),
        !FrameView::data(source, sync_type, id, payload).is_ack(),
        FrameView::data(source, sync_type, id, payload).command_id() == id,
{
}

/// An acknowledgement frame is well-formed, and acknowledges the identifier
/// it was built for.
pub proof fn lemma_ack_frame_wf(source: PacketSource, sync_type: PacketSyncType, id: u8)
    ensures
        FrameView::ack(source, sync_type, id).wf(),
        FrameView::ack(source, sync_type, id).is_ack(),
        FrameView::ack(source, sync_type, id).command_id() == id,
{
    assert(seq![sync_type.spec_to_u8(), id, ACK_SENTINEL] + Seq::<u8>::empty() =~= seq![
        sync_type.spec_to_u8(),
        id,
        ACK_SENTINEL,
    ]);
}

/// A frame that a scan finds is well-formed, and its bytes on the wire are
/// the bytes that the scan consumed after the noise.
pub proof fn lemma_scan_frame_is_wire(b: Seq<u8>)
    requires
        scan_spec(b).0 is Frame,
    ensures
        scan_spec(b).0->Frame_0.wf(),
        scan_spec(b).0->Frame_0.wire() == b.subrange(noise_len(b), scan_spec(b).1),
        noise_len(b) + 7 <= scan_spec(b).1 <= b.len(),
{
    reveal(frame_at);
    lemma_noise_from_bounds(b, 0);
    let n = noise_len(b);
    let s = b.skip(n);
    let f = scan_spec(b).0->Frame_0;
    let end = 2 + f.declared_length();
    assert(may_start_marker(b, n));
    assert(is_marker(s[0], s[1]));
    assert(s.subrange(2, end) =~= f.covered());
    assert(f.source.marker() =~= seq![s[0], s[1]]);
    let hi = s[end];
    let lo = s[end + 1];
    assert((be_u16(hi, lo) / 256) as u8 == hi && (be_u16(hi, lo) % 256) as u8 == lo);
    assert(f.wire() =~= b.subrange(n, n + end + 2));
}

/// A frame that is followed by anything at all is found by a scan, whole
/// and unchanged, and the scan consumes exactly the frame's bytes.
pub proof fn lemma_scan_finds_encoded(f: FrameView, tail: Seq<u8>)
    requires
        f.wf(),
    ensures
        scan_spec(f.wire() + tail) == (ScanView::Frame(f), f.wire().len() as int),
        f.wire().len() == f.payload.len() + 7,
{
    reveal(frame_at);
    let b = f.wire() + tail;
    let end = 2 + f.declared_length();
    assert(is_marker(b[0], b[1]));
    lemma_noise_len_unique(b, 0);
    let s = b.skip(0);
    assert(s =~= b);
    assert(s[2] == f.sync_type.spec_to_u8());
    assert(s[3] == f.length_or_id && s[4] == f.ack_or_id);
    assert(s.subrange(2, end) =~= f.covered());
    assert(s.subrange(5, end) =~= f.payload);
    assert(s[end] == (f.checksum / 256) as u8);
    assert(s[end + 1] == (f.checksum % 256) as u8);
    assert(be_u16(s[end], s[end + 1]) == f.checksum);
    assert(PacketSource::spec_from_first(s[0]) == f.source);
}

/// Two byte sequences that differ in one place have different checksums.
pub proof fn lemma_checksum_detects_update(s: Seq<u8>, k: int, v: u8)
    requires
        0 <= k < s.len(),
        v != s[k],
    ensures
        checksum_of(s.update(k, v)) != checksum_of(s),
{
    lemma_byte_sum_update(s, k, v);
}

/// A frame in which one byte after the marker was replaced is refused,
/// whatever follows it.
///
/// The byte may be the type byte, the identifier (field A of an
/// acknowledgement, field B otherwise, as long as it does not become the
/// acknowledgement sentinel), any payload byte or either checksum byte; it
/// may also be a declared length that becomes less than 3. Left out are a
/// declared length that stays 3 or more and a change to or from the
/// sentinel: they move the place where the checksum is looked for.
pub proof fn lemma_scan_refuses_corrupted(f: FrameView, k: int, v: u8, tail: Seq<u8>)
    requires
        f.wf(),
        2 <= k < f.wire().len(),
        v != f.wire()[k],
        k == 3 ==> f.is_ack() || v < LENGTH_OVERHEAD,
        k == 4 ==> !f.is_ack() && v != ACK_SENTINEL,
    ensures
        scan_spec(f.wire().update(k, v) + tail).0 is Invalid,
{
    reveal(frame_at);
    let w = f.wire();
    let b = w.update(k, v) + tail;
    let end = 2 + f.declared_length();
    assert(is_marker(b[0], b[1]));
    lemma_noise_len_unique(b, 0);
    let s = b.skip(0);
    assert(s =~= b);
    assert(w.subrange(2, end) =~= f.covered());
    assert(w[end] == (f.checksum / 256) as u8);
    assert(w[end + 1] == (f.checksum % 256) as u8);
    assert(be_u16(w[end], w[end + 1]) == f.checksum);
    if k >= end {
        assert(s.subrange(2, end) =~= f.covered());
        assert(be_u16(s[end], s[end + 1]) != f.checksum);
    } else if PacketSyncType::spec_from_u8(s[2]) is Some {
        assert(s[3] == if k == 3 { v } else { f.length_or_id });
        assert(s[4] == if k == 4 { v } else { f.ack_or_id });
        if !(k == 3 && !f.is_ack()) {
            assert(s[end] == w[end] && s[end + 1] == w[end + 1]);
            assert(s.subrange(2, end) =~= f.covered().update(k - 2, v));
            lemma_checksum_detects_update(f.covered(), k - 2, v);
        }
    }
}

} // verus!
