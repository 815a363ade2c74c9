//! The host's part in a session with the bridge: which device is a bridge,
//! what the host sends to open a session, and what it does with a frame
//! that arrives. Reading from the device and writing to it is left to the
//! caller.

use crate::command::{
    frame_packet, packet_frame, AuthPacket, GetMacPacket, GetSensorCountPacket,
    GetSensorListPacket, GetVerPacket, InquiryPacket, Packable, Packet,
};
use crate::frame::{Frame, FrameView};
use vstd::prelude::*;

verus! {

/// USB vendor identifier of the bridge.
pub const HUB_VENDOR_ID: u16 = 0x1A86;

/// USB product identifier of the bridge.
pub const HUB_PRODUCT_ID: u16 = 0xE024;

/// Identifier of the frame in which the bridge names one of its sensors.
pub const SENSOR_NAMED: u8 = 0x31;

/// Number of sensors the host asks for when it opens a session.
pub const SENSORS_ASKED: u8 = 5;

/// Tells whether a device with these identifiers is a bridge.
pub fn is_hub(vendor_id: u16, product_id: u16) -> (r: bool)
    ensures
        r == (vendor_id == HUB_VENDOR_ID && product_id == HUB_PRODUCT_ID),
{
    vendor_id == HUB_VENDOR_ID && product_id == HUB_PRODUCT_ID
}

/// The bytes of the frame that carries `packet` from the host, or no bytes
/// if the packet has no frame.
pub open spec fn packet_wire<P: Packet + Packable>(packet: P) -> Seq<u8> {
    match packet_frame(packet.spec_packet_type(), packet.spec_packet_id(), packet.spec_bytes()) {
        Some(bytes) => bytes,
        None => Seq::empty(),
    }
}

/// A frame to send, and the number of reads to make before the next one.
#[derive(Clone, Debug, PartialEq, Eq)]
pub struct Exchange {
    pub request: Vec<u8>,
    pub replies: usize,
}

impl View for Exchange {
    type V = (Seq<u8>, usize);

    open spec fn view(&self) -> (Seq<u8>, usize) {
        (self.request@, self.replies)
    }
}

/// The views of a list of exchanges.
pub open spec fn exchange_views(list: Seq<Exchange>) -> Seq<(Seq<u8>, usize)> {
    Seq::new(list.len(), |i: int| list[i]@)
}

/// The views of a list of byte vectors.
pub open spec fn byte_views(list: Seq<Vec<u8>>) -> Seq<Seq<u8>> {
    Seq::new(list.len(), |i: int| list[i]@)
}

/// The exchanges that open a session: an inquiry, then the bridge's
/// identifier, its versions and its sensor count, one reply each; then five
/// of its sensors, with three replies; at last the notice that
/// authorisation is done, which is not replied to.
pub open spec fn startup_spec() -> Seq<(Seq<u8>, usize)> {
    seq![
        (packet_wire(InquiryPacket), 1usize),
        (packet_wire(GetMacPacket), 1usize),
        (packet_wire(GetVerPacket), 1usize),
        (packet_wire(GetSensorCountPacket), 1usize),
        (packet_wire(GetSensorListPacket { count: SENSORS_ASKED }), 3usize),
        (packet_wire(AuthPacket { completion: 0xFF }), 0usize),
    ]
}

/// The frames a host sends when a client connects to it: it asks for the
/// bridge's identifier, its versions and its sensor count.
pub open spec fn greeting_spec() -> Seq<Seq<u8>> {
    seq![
        packet_wire(GetMacPacket),
        packet_wire(GetVerPacket),
        packet_wire(GetSensorCountPacket),
    ]
}

/// Writes the frame of a packet that has one.
fn wire<P: Packet + Packable>(packet: P) -> (out: Vec<u8>)
    requires
        packet_frame(packet.spec_packet_type(), packet.spec_packet_id(), packet.spec_bytes())
            is Some,
    ensures
        out@ == packet_wire(packet),
{
    match frame_packet(&packet) {
        Some(out) => out,
        None => Vec::new(),
    }
}

/// The exchanges that open a session, in order.
pub fn startup() -> (list: Vec<Exchange>)
    ensures
        exchange_views(list@) == startup_spec(),
{
    let mut list: Vec<Exchange> = Vec::new();
    list.push(Exchange { request: wire(InquiryPacket), replies: 1 });
    list.push(Exchange { request: wire(GetMacPacket), replies: 1 });
    list.push(Exchange { request: wire(GetVerPacket), replies: 1 });
    list.push(Exchange { request: wire(GetSensorCountPacket), replies: 1 });
    list.push(Exchange { request: wire(GetSensorListPacket::create(SENSORS_ASKED)), replies: 3 });
    list.push(Exchange { request: wire(AuthPacket::create_done()), replies: 0 });
    assert(exchange_views(list@) =~= startup_spec());
    list
}

/// The frames to send when a client connects, in order.
pub fn greeting() -> (list: Vec<Vec<u8>>)
    ensures
        byte_views(list@) == greeting_spec(),
{
    let mut list: Vec<Vec<u8>> = Vec::new();
    list.push(wire(GetMacPacket));
    list.push(wire(GetVerPacket));
    list.push(wire(GetSensorCountPacket));
    assert(byte_views(list@) =~= greeting_spec());
    list
}

/// What the host does with a frame.
#[derive(Clone, Debug, PartialEq, Eq)]
pub enum HubAction {
    /// Send these bytes to the bridge.
    Send(Vec<u8>),
    /// Hand these bytes to the connected client.
    Relay(Vec<u8>),
    /// Nothing.
    Nothing,
}

/// A [`HubAction`] as plain values.
pub enum HubActionView {
    Send(Seq<u8>),
    Relay(Seq<u8>),
    Nothing,
}

impl View for HubAction {
    type V = HubActionView;

    open spec fn view(&self) -> HubActionView {
        match self {
            HubAction::Send(bytes) => HubActionView::Send(bytes@),
            HubAction::Relay(bytes) => HubActionView::Relay(bytes@),
            HubAction::Nothing => HubActionView::Nothing,
        }
    }
}

/// What the host does with the frame `f`; `bound` tells whether a client is
/// connected.
///
/// When the bridge names a sensor, the host asks for as many sensors as the
/// first payload byte says, and does nothing if there is no such byte. Any
/// other frame goes to the client as it came, if there is a client.
pub open spec fn action_for(f: FrameView, bound: bool) -> HubActionView {
    if f.ack_or_id == SENSOR_NAMED {
        if f.payload.len() > 0 {
            HubActionView::Send(packet_wire(GetSensorListPacket { count: f.payload[0] }))
        } else {
            HubActionView::Nothing
        }
    } else if bound {
        HubActionView::Relay(f.wire())
    } else {
        HubActionView::Nothing
    }
}

/// Decides what to do with a frame that arrived.
pub fn on_frame(frame: &Frame, bound: bool) -> (action: HubAction)
    ensures
        action@ == action_for(frame@, bound),
{
    if frame.ack_or_id == SENSOR_NAMED {
        if frame.payload.len() > 0 {
            HubAction::Send(wire(GetSensorListPacket::create(frame.payload[0])))
        } else {
            HubAction::Nothing
        }
    } else if bound {
        HubAction::Relay(frame.encode())
    } else {
        HubAction::Nothing
    }
}

} // verus!
