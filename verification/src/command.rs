//! The packets a host sends and receives by name: each knows the namespace it
//! travels in and its identifier, and the ones a host sends write themselves
//! as bytes.

use crate::buffer::{
    buf_freeze, buf_put_slice, buf_put_u8, buf_view, buf_with_capacity, bytes_to_vec, bytes_view,
};
use crate::checksum::{checksum, checksum_of};
use crate::frame::{
    lemma_scan_finds_encoded, scan_spec, Frame, FrameView, PacketSource, PacketSyncType, ScanView,
    ACK_SENTINEL, MARKER_HIGH, MARKER_LOW,
};
use vstd::prelude::*;

verus! {

/// Most bytes a packet can be written as: a one-byte length counts them and
/// the two checksum bytes.
pub const MAX_DATA: usize = 253;

/// The names of the packets a host deals with.
#[derive(Clone, Copy, Debug, PartialEq, Eq, Structural)]
pub enum PacketType {
    GetEnr,
    Auth,
    GetMac,
    GetKey,
    Inquiry,
    GetVer,
    GetSensorCount,
    SetRandom,
    StartStopNetwork,
    GetSensorList,
    Event,
    AddSensor,
    Ack,
}

/// What every packet tells of itself.
pub trait Packet {
    /// The namespace the packet travels in.
    spec fn spec_packet_type(&self) -> PacketSyncType;

    /// The packet's identifier.
    spec fn spec_packet_id(&self) -> u8;

    /// The namespace the packet travels in.
    fn get_packet_type(&self) -> (t: PacketSyncType)
        ensures
            t == self.spec_packet_type(),
    ;

    /// The packet's identifier.
    fn get_packet_id(&self) -> (id: u8)
        ensures
            id == self.spec_packet_id(),
    ;
}

/// A packet that can be read from bytes.
pub trait Parseable: Sized {
    fn from_bytes(&self, data: bytes::Bytes) -> Self;
}

/// A packet that can be written as bytes.
pub trait Packable {
    /// The bytes that stand between a frame's length and its checksum: the
    /// identifier, then the arguments. For an acknowledgement they are the
    /// two header bytes, the acknowledged identifier and `FF`.
    spec fn spec_bytes(&self) -> Seq<u8>;

    /// Writes the packet.
    fn to_bytes(&self) -> (out: bytes::Bytes)
        ensures
            bytes_view(out) == self.spec_bytes(),
    ;
}

/// A packet as it arrived, with the link quality it arrived at.
pub struct ReceivedPacket<T> where T: Packet {
    pub lqi: u8,
    pub packet_type: PacketType,
    pub packet: T,
}

impl<T> ReceivedPacket<T> where T: Packet {
    /// Gives up the wrapping and hands out the packet.
    pub fn into_inner(self) -> (packet: T)
        ensures
            packet == self.packet,
    {
        self.packet
    }
}

/// Writes a packet that is its identifier alone.
fn id_only(id: u8) -> (out: bytes::Bytes)
    ensures
        bytes_view(out) == seq![id],
{
    let mut buf = buf_with_capacity(1);
    buf_put_u8(&mut buf, id);
    let out = buf_freeze(buf);
    assert(bytes_view(out) =~= seq![id]);
    out
}

/// Writes a packet that is its identifier and one byte.
fn id_and_byte(id: u8, argument: u8) -> (out: bytes::Bytes)
    ensures
        bytes_view(out) == seq![id, argument],
{
    let mut buf = buf_with_capacity(2);
    buf_put_u8(&mut buf, id);
    buf_put_u8(&mut buf, argument);
    let out = buf_freeze(buf);
    assert(bytes_view(out) =~= seq![id, argument]);
    out
}

impl Packable for dyn Packet {
    open spec fn spec_bytes(&self) -> Seq<u8> {
        seq![self.spec_packet_id()]
    }

    /// A packet of which no more is known than that it is one writes its
    /// identifier.
    fn to_bytes(&self) -> (out: bytes::Bytes) {
        id_only(self.get_packet_id())
    }
}

/// Asks the bridge for its enrolment data.
#[derive(Clone, Copy, Debug, PartialEq, Eq)]
pub struct EnrPacket;

impl Packet for EnrPacket {
    open spec fn spec_packet_type(&self) -> PacketSyncType {
        PacketSyncType::Sync
    }

    open spec fn spec_packet_id(&self) -> u8 {
        0x02
    }

    fn get_packet_type(&self) -> (t: PacketSyncType) {
        PacketSyncType::Sync
    }

    fn get_packet_id(&self) -> (id: u8) {
        0x02
    }
}

/// Tells the bridge how far the host's authorisation has come.
#[derive(Clone, Copy, Debug, PartialEq, Eq)]
pub struct AuthPacket {
    pub completion: u8,
}

impl AuthPacket {
    /// Authorisation is complete: completion `FF`.
    pub fn create_done() -> (packet: AuthPacket)
        ensures
            packet.completion == 0xFF,
    {
        AuthPacket { completion: 0xFF }
    }

    /// Authorisation is in progress and the bridge blinks: completion `00`.
    pub fn create_blinking() -> (packet: AuthPacket)
        ensures
            packet.completion == 0x00,
    {
        AuthPacket { completion: 0x00 }
    }
}

impl Packet for AuthPacket {
    open spec fn spec_packet_type(&self) -> PacketSyncType {
        PacketSyncType::Async
    }

    open spec fn spec_packet_id(&self) -> u8 {
        0x14
    }

    fn get_packet_type(&self) -> (t: PacketSyncType) {
        PacketSyncType::Async
    }

    fn get_packet_id(&self) -> (id: u8) {
        0x14
    }
}

impl Packable for AuthPacket {
    open spec fn spec_bytes(&self) -> Seq<u8> {
        seq![self.spec_packet_id(), self.completion]
    }

    fn to_bytes(&self) -> (out: bytes::Bytes) {
        id_and_byte(self.get_packet_id(), self.completion)
    }
}

/// Asks the bridge for its identifier.
#[derive(Clone, Copy, Debug, PartialEq, Eq)]
pub struct GetMacPacket;

impl Packet for GetMacPacket {
    open spec fn spec_packet_type(&self) -> PacketSyncType {
        PacketSyncType::Sync
    }

    open spec fn spec_packet_id(&self) -> u8 {
        0x04
    }

    fn get_packet_type(&self) -> (t: PacketSyncType) {
        PacketSyncType::Sync
    }

    fn get_packet_id(&self) -> (id: u8) {
        0x04
    }
}

impl Packable for GetMacPacket {
    open spec fn spec_bytes(&self) -> Seq<u8> {
        seq![self.spec_packet_id()]
    }

    fn to_bytes(&self) -> (out: bytes::Bytes) {
        id_only(self.get_packet_id())
    }
}

/// Asks the bridge for its key.
#[derive(Clone, Copy, Debug, PartialEq, Eq)]
pub struct GetKeyPacket;

impl Packet for GetKeyPacket {
    open spec fn spec_packet_type(&self) -> PacketSyncType {
        PacketSyncType::Sync
    }

    open spec fn spec_packet_id(&self) -> u8 {
        0x06
    }

    fn get_packet_type(&self) -> (t: PacketSyncType) {
        PacketSyncType::Sync
    }

    fn get_packet_id(&self) -> (id: u8) {
        0x06
    }
}

/// Opens the exchange with the bridge.
#[derive(Clone, Copy, Debug, PartialEq, Eq)]
pub struct InquiryPacket;

impl Packet for InquiryPacket {
    open spec fn spec_packet_type(&self) -> PacketSyncType {
        PacketSyncType::Sync
    }

    open spec fn spec_packet_id(&self) -> u8 {
        0x27
    }

    fn get_packet_type(&self) -> (t: PacketSyncType) {
        PacketSyncType::Sync
    }

    fn get_packet_id(&self) -> (id: u8) {
        0x27
    }
}

impl Packable for InquiryPacket {
    open spec fn spec_bytes(&self) -> Seq<u8> {
        seq![self.spec_packet_id()]
    }

    fn to_bytes(&self) -> (out: bytes::Bytes) {
        id_only(self.get_packet_id())
    }
}

/// Asks the bridge for its versions.
#[derive(Clone, Copy, Debug, PartialEq, Eq)]
pub struct GetVerPacket;

impl Packet for GetVerPacket {
    open spec fn spec_packet_type(&self) -> PacketSyncType {
        PacketSyncType::Async
    }

    open spec fn spec_packet_id(&self) -> u8 {
        0x16
    }

    fn get_packet_type(&self) -> (t: PacketSyncType) {
        PacketSyncType::Async
    }

    fn get_packet_id(&self) -> (id: u8) {
        0x16
    }
}

impl Packable for GetVerPacket {
    open spec fn spec_bytes(&self) -> Seq<u8> {
        seq![self.spec_packet_id()]
    }

    fn to_bytes(&self) -> (out: bytes::Bytes) {
        id_only(self.get_packet_id())
    }
}

/// Asks the bridge how many sensors are bound to it.
#[derive(Clone, Copy, Debug, PartialEq, Eq)]
pub struct GetSensorCountPacket;

impl Packet for GetSensorCountPacket {
    open spec fn spec_packet_type(&self) -> PacketSyncType {
        PacketSyncType::Async
    }

    open spec fn spec_packet_id(&self) -> u8 {
        0x2E
    }

    fn get_packet_type(&self) -> (t: PacketSyncType) {
        PacketSyncType::Async
    }

    fn get_packet_id(&self) -> (id: u8) {
        0x2E
    }
}

impl Packable for GetSensorCountPacket {
    open spec fn spec_bytes(&self) -> Seq<u8> {
        seq![self.spec_packet_id()]
    }

    fn to_bytes(&self) -> (out: bytes::Bytes) {
        id_only(self.get_packet_id())
    }
}

/// Hands the bridge sixteen bytes chosen by the host.
#[derive(Clone, Copy, Debug, PartialEq, Eq)]
pub struct SetRandomPacket {
    pub data: [u8; 16],
}

impl Packet for SetRandomPacket {
    open spec fn spec_packet_type(&self) -> PacketSyncType {
        PacketSyncType::Async
    }

    open spec fn spec_packet_id(&self) -> u8 {
        0x21
    }

    fn get_packet_type(&self) -> (t: PacketSyncType) {
        PacketSyncType::Async
    }

    fn get_packet_id(&self) -> (id: u8) {
        0x21
    }
}

impl Packable for SetRandomPacket {
    open spec fn spec_bytes(&self) -> Seq<u8> {
        seq![self.spec_packet_id()] + self.data@
    }

    fn to_bytes(&self) -> (out: bytes::Bytes) {
        let mut buf = buf_with_capacity(17);
        buf_put_u8(&mut buf, self.get_packet_id());
        buf_put_slice(&mut buf, self.data.as_slice());
        let out = buf_freeze(buf);
        assert(bytes_view(out) =~= seq![self.spec_packet_id()] + self.data@);
        out
    }
}

impl SetRandomPacket {
    /// The packet that hands over `data`.
    pub fn create(data: [u8; 16]) -> (packet: SetRandomPacket)
        ensures
            packet.data == data,
    {
        SetRandomPacket { data }
    }
}

/// Opens or closes the bridge for sensors that want to join.
#[derive(Clone, Copy, Debug, PartialEq, Eq)]
pub struct StartStopNetworkPacket {
    pub join_mode: bool,
}

impl Packet for StartStopNetworkPacket {
    open spec fn spec_packet_type(&self) -> PacketSyncType {
        PacketSyncType::Async
    }

    open spec fn spec_packet_id(&self) -> u8 {
        0x1C
    }

    fn get_packet_type(&self) -> (t: PacketSyncType) {
        PacketSyncType::Async
    }

    fn get_packet_id(&self) -> (id: u8) {
        0x1C
    }
}

impl Packable for StartStopNetworkPacket {
    open spec fn spec_bytes(&self) -> Seq<u8> {
        seq![
            self.spec_packet_id(),
            if self.join_mode {
                0x01u8
            } else {
                0x00u8
            },
        ]
    }

    fn to_bytes(&self) -> (out: bytes::Bytes) {
        id_and_byte(
            self.get_packet_id(),
            if self.join_mode {
                0x01
            } else {
                0x00
            },
        )
    }
}

impl StartStopNetworkPacket {
    /// The packet that opens the bridge (`join_mode`) or closes it.
    pub fn create(join_mode: bool) -> (packet: StartStopNetworkPacket)
        ensures
            packet.join_mode == join_mode,
    {
        StartStopNetworkPacket { join_mode }
    }
}

/// Asks the bridge to name `count` of its sensors.
#[derive(Clone, Copy, Debug, PartialEq, Eq)]
pub struct GetSensorListPacket {
    pub count: u8,
}

impl Packet for GetSensorListPacket {
    open spec fn spec_packet_type(&self) -> PacketSyncType {
        PacketSyncType::Async
    }

    open spec fn spec_packet_id(&self) -> u8 {
        0x30
    }

    fn get_packet_type(&self) -> (t: PacketSyncType) {
        PacketSyncType::Async
    }

    fn get_packet_id(&self) -> (id: u8) {
        0x30
    }
}

impl Packable for GetSensorListPacket {
    open spec fn spec_bytes(&self) -> Seq<u8> {
        seq![self.spec_packet_id(), self.count]
    }

    fn to_bytes(&self) -> (out: bytes::Bytes) {
        id_and_byte(self.get_packet_id(), self.count)
    }
}

impl GetSensorListPacket {
    /// The packet that asks for `count` sensors.
    pub fn create(count: u8) -> (packet: GetSensorListPacket)
        ensures
            packet.count == count,
    {
        GetSensorListPacket { count }
    }
}

/// A sensor reports an event. Only the bridge sends it.
#[derive(Clone, Debug, PartialEq, Eq)]
pub struct SensorEventPacket {
    pub device_id: String,
    pub device_type: u8,
}

impl Packet for SensorEventPacket {
    open spec fn spec_packet_type(&self) -> PacketSyncType {
        PacketSyncType::Async
    }

    open spec fn spec_packet_id(&self) -> u8 {
        0x35
    }

    fn get_packet_type(&self) -> (t: PacketSyncType) {
        PacketSyncType::Async
    }

    fn get_packet_id(&self) -> (id: u8) {
        0x35
    }
}

/// A sensor raises an alarm. Only the bridge sends it.
#[derive(Clone, Copy, Debug, PartialEq, Eq)]
pub struct SensorAlarmPacket {}

impl Packet for SensorAlarmPacket {
    open spec fn spec_packet_type(&self) -> PacketSyncType {
        PacketSyncType::Async
    }

    open spec fn spec_packet_id(&self) -> u8 {
        0x19
    }

    fn get_packet_type(&self) -> (t: PacketSyncType) {
        PacketSyncType::Async
    }

    fn get_packet_id(&self) -> (id: u8) {
        0x19
    }
}

/// A sensor was found while scanning. Only the bridge sends it.
#[derive(Clone, Copy, Debug, PartialEq, Eq)]
pub struct SensorScanPacket {}

impl Packet for SensorScanPacket {
    open spec fn spec_packet_type(&self) -> PacketSyncType {
        PacketSyncType::Async
    }

    open spec fn spec_packet_id(&self) -> u8 {
        0x20
    }

    fn get_packet_type(&self) -> (t: PacketSyncType) {
        PacketSyncType::Async
    }

    fn get_packet_id(&self) -> (id: u8) {
        0x20
    }
}

/// A sensor asks for the time. Only the bridge sends it.
#[derive(Clone, Copy, Debug, PartialEq, Eq)]
pub struct SensorNotifySyncTimePacket {}

impl Packet for SensorNotifySyncTimePacket {
    open spec fn spec_packet_type(&self) -> PacketSyncType {
        PacketSyncType::Async
    }

    open spec fn spec_packet_id(&self) -> u8 {
        0x32
    }

    fn get_packet_type(&self) -> (t: PacketSyncType) {
        PacketSyncType::Async
    }

    fn get_packet_id(&self) -> (id: u8) {
        0x32
    }
}

/// The answer to a sensor that asked for the time.
#[derive(Clone, Copy, Debug, PartialEq, Eq)]
pub struct SyncTimeResponsePacket {}

impl Packet for SyncTimeResponsePacket {
    open spec fn spec_packet_type(&self) -> PacketSyncType {
        PacketSyncType::Async
    }

    open spec fn spec_packet_id(&self) -> u8 {
        0x33
    }

    fn get_packet_type(&self) -> (t: PacketSyncType) {
        PacketSyncType::Async
    }

    fn get_packet_id(&self) -> (id: u8) {
        0x33
    }
}

/// A sensor was bound to the bridge. Only the bridge sends it.
#[derive(Clone, Copy, Debug, PartialEq, Eq)]
pub struct AddSensorPacket {}

impl Packet for AddSensorPacket {
    open spec fn spec_packet_type(&self) -> PacketSyncType {
        PacketSyncType::Async
    }

    open spec fn spec_packet_id(&self) -> u8 {
        0x20
    }

    fn get_packet_type(&self) -> (t: PacketSyncType) {
        PacketSyncType::Async
    }

    fn get_packet_id(&self) -> (id: u8) {
        0x20
    }
}

/// Asks the bridge to let go of a sensor.
#[derive(Clone, Copy, Debug, PartialEq, Eq)]
pub struct DeleteSensorCommandPacket {}

impl Packet for DeleteSensorCommandPacket {
    open spec fn spec_packet_type(&self) -> PacketSyncType {
        PacketSyncType::Async
    }

    open spec fn spec_packet_id(&self) -> u8 {
        0x25
    }

    fn get_packet_type(&self) -> (t: PacketSyncType) {
        PacketSyncType::Async
    }

    fn get_packet_id(&self) -> (id: u8) {
        0x25
    }
}

impl Packable for DeleteSensorCommandPacket {
    open spec fn spec_bytes(&self) -> Seq<u8> {
        seq![self.spec_packet_id()]
    }

    fn to_bytes(&self) -> (out: bytes::Bytes) {
        id_only(self.get_packet_id())
    }
}

/// Acknowledges the packet with the identifier `for_packet_id`.
#[derive(Clone, Copy, Debug, PartialEq, Eq)]
pub struct AckPacket {
    pub for_packet_id: u8,
}

impl Packet for AckPacket {
    open spec fn spec_packet_type(&self) -> PacketSyncType {
        PacketSyncType::Async
    }

    open spec fn spec_packet_id(&self) -> u8 {
        ACK_SENTINEL
    }

    fn get_packet_type(&self) -> (t: PacketSyncType) {
        PacketSyncType::Async
    }

    fn get_packet_id(&self) -> (id: u8) {
        ACK_SENTINEL
    }
}

impl Packable for AckPacket {
    open spec fn spec_bytes(&self) -> Seq<u8> {
        seq![self.for_packet_id, self.spec_packet_id()]
    }

    fn to_bytes(&self) -> (out: bytes::Bytes) {
        id_and_byte(self.for_packet_id, self.get_packet_id())
    }
}

/// The bytes a host sends for the bytes `data` of a packet in the namespace
/// `sync_type`: the host's marker, the type byte, the number of bytes plus 2,
/// the bytes themselves and the checksum, high byte first.
pub open spec fn framed(sync_type: PacketSyncType, data: Seq<u8>) -> Seq<u8> {
    let covered = seq![sync_type.spec_to_u8(), (data.len() + 2) as u8] + data;
    let sum = checksum_of(covered);
    seq![MARKER_HIGH, MARKER_LOW] + covered + seq![(sum / 256) as u8, (sum % 256) as u8]
}

/// The bytes a host sends for a packet with the namespace `sync_type`, the
/// identifier `id` and the bytes `data`, if there are any.
///
/// A packet with the identifier `FF` is an acknowledgement: its two bytes,
/// an identifier and `FF`, are the frame's header fields as they stand, and
/// no length is written. Any other packet's bytes are framed as they are;
/// there must be at least one of them, and no more than a one-byte length
/// can count.
pub open spec fn packet_frame(sync_type: PacketSyncType, id: u8, data: Seq<u8>) -> Option<
    Seq<u8>,
> {
    if id == ACK_SENTINEL {
        if data.len() == 2 && data[1] == ACK_SENTINEL {
            Some(FrameView::ack(PacketSource::Host, sync_type, data[0]).wire())
        } else {
            None
        }
    } else if 1 <= data.len() <= MAX_DATA {
        Some(framed(sync_type, data))
    } else {
        None
    }
}

/// What is framed is a frame: its first byte is the frame's identifier and
/// the rest its payload. Unless that first byte is `FF` the frame is
/// well-formed, so that a scan finds it.
pub proof fn lemma_framed_is_frame(sync_type: PacketSyncType, data: Seq<u8>)
    requires
        1 <= data.len() <= MAX_DATA,
    ensures
        framed(sync_type, data) == FrameView::data(
            PacketSource::Host,
            sync_type,
            data[0],
            data.skip(1),
        ).wire(),
        data[0] != ACK_SENTINEL ==> FrameView::data(
            PacketSource::Host,
            sync_type,
            data[0],
            data.skip(1),
        ).wf(),
{
    let f = FrameView::data(PacketSource::Host, sync_type, data[0], data.skip(1));
    let covered = seq![sync_type.spec_to_u8(), (data.len() + 2) as u8] + data;
    assert(f.covered() =~= covered);
    assert(f.source.marker() =~= seq![MARKER_HIGH, MARKER_LOW]);
}

/// What a host framed is found by a scan, whatever follows it: a frame from
/// the host with the first byte as its identifier and the rest as its
/// payload, and exactly the framed bytes consumed. Bytes that begin with
/// `FF` are left out: on the wire they read as an acknowledgement.
pub proof fn lemma_scan_finds_framed(sync_type: PacketSyncType, data: Seq<u8>, tail: Seq<u8>)
    requires
        1 <= data.len() <= MAX_DATA,
        data[0] != ACK_SENTINEL,
    ensures
        scan_spec(framed(sync_type, data) + tail) == (
            ScanView::Frame(
                FrameView::data(PacketSource::Host, sync_type, data[0], data.skip(1)),
            ),
            data.len() as int + 6,
        ),
{
    lemma_framed_is_frame(sync_type, data);
    lemma_scan_finds_encoded(
        FrameView::data(PacketSource::Host, sync_type, data[0], data.skip(1)),
        tail,
    );
}

/// Frames the bytes of a packet.
fn frame_data(sync_type: PacketSyncType, data: &Vec<u8>) -> (out: Vec<u8>)
    requires
        1 <= data.len() <= MAX_DATA,
    ensures
        out@ == framed(sync_type, data@),
{
    let ghost head = seq![sync_type.spec_to_u8(), (data.len() + 2) as u8];
    let mut covered: Vec<u8> = Vec::new();
    covered.push(sync_type.to_u8());
    covered.push((data.len() + 2) as u8);
    assert(covered@ =~= head + data@.take(0));
    let mut i: usize = 0;
    while i < data.len()
        invariant
            i <= data.len(),
            covered@ == head + data@.take(i as int),
        decreases data.len() - i,
    {
        covered.push(data[i]);
        i += 1;
        assert(data@.take(i as int) =~= data@.take(i - 1).push(data@[i - 1]));
        assert(covered@ =~= head + data@.take(i as int));
    }
    assert(data@.take(i as int) =~= data@);
    let sum: u16 = checksum(covered.as_slice());
    let mut out: Vec<u8> = Vec::new();
    out.push(MARKER_HIGH);
    out.push(MARKER_LOW);
    out.append(&mut covered);
    out.push((sum / 256) as u8);
    out.push((sum % 256) as u8);
    assert(out@ =~= framed(sync_type, data@));
    out
}

/// Writes the frame a host sends for a packet with the namespace
/// `sync_type`, the identifier `id` and the bytes `data`.
///
/// The bytes are framed as they are, whatever they begin with. There is no
/// frame when there are no bytes or more than 253, or when an
/// acknowledgement is not made of an identifier and `FF`.
pub fn frame_bytes(sync_type: PacketSyncType, id: u8, data: &Vec<u8>) -> (r: Option<Vec<u8>>)
    ensures
        match r {
            Some(out) => packet_frame(sync_type, id, data@) == Some(out@),
            None => packet_frame(sync_type, id, data@) is None,
        },
{
    if id == ACK_SENTINEL {
        if data.len() == 2 && data[1] == ACK_SENTINEL {
            Some(Frame::ack(PacketSource::Host, sync_type, data[0]).encode())
        } else {
            None
        }
    } else if 1 <= data.len() && data.len() <= MAX_DATA {
        Some(frame_data(sync_type, data))
    } else {
        None
    }
}

/// Writes the frame that carries `packet` from the host to the bridge: the
/// frame of its namespace, its identifier and its bytes.
pub fn frame_packet<P: Packet + Packable>(packet: &P) -> (r: Option<Vec<u8>>)
    ensures
        match r {
            Some(out) => packet_frame(
                packet.spec_packet_type(),
                packet.spec_packet_id(),
                packet.spec_bytes(),
            ) == Some(out@),
            None => packet_frame(
                packet.spec_packet_type(),
                packet.spec_packet_id(),
                packet.spec_bytes(),
            ) is None,
        },
{
    let data: Vec<u8> = bytes_to_vec(&packet.to_bytes());
    frame_bytes(packet.get_packet_type(), packet.get_packet_id(), &data)
}

} // verus!
