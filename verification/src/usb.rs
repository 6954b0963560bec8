//! The device's USB addressing, and the requests a session asks its driver to perform.

use vstd::prelude::*;

verus! {

/// Vendor identifier of the microphone.
pub const VENDOR_ID: u16 = 0x14ed;

/// Product identifier of the microphone.
pub const PRODUCT_ID: u16 = 0x1012;

/// The configuration the device must be in.
pub const CONFIGURATION: u8 = 1;

/// The audio-control interface, which carries the mute feature.
pub const USBAUDIO_IFACE: u8 = 0;

/// The HID interface, which carries the command channel.
pub const HID_IFACE: u8 = 3;

/// The alternate setting every claimed interface is switched to.
pub const DEFAULT_ALT_SETTING: u8 = 0;

/// Interrupt endpoint that takes command frames.
pub const HID_EP_OUT: u8 = 0x05;

/// Interrupt endpoint that delivers response frames.
pub const HID_EP_IN: u8 = 0x84;

/// Size of a frame on the command channel, in bytes.
pub const FRAME_LEN: usize = 64;

/// Time allowed for a control transfer, in milliseconds.
pub const CONTROL_TIMEOUT_MS: u64 = 100;

/// Time allowed for writing a command frame, in milliseconds.
pub const WRITE_TIMEOUT_MS: u64 = 100;

/// Time allowed for the firmware to answer a command, in milliseconds.
pub const READ_TIMEOUT_MS: u64 = 200;

/// Time allowed for each read that discards stale input, in milliseconds.
pub const DRAIN_TIMEOUT_MS: u64 = 50;

/// Most reads a single drain performs.
pub const DRAIN_READS: u8 = 5;

/// Pause between claiming the interfaces and the first drain, in milliseconds.
pub const SETTLE_MS: u64 = 100;

/// The interfaces a session claims, in the order it claims them.
pub open spec fn interfaces() -> Seq<u8> {
    seq![USBAUDIO_IFACE, HID_IFACE]
}

/// Number of interfaces a session claims.
pub fn interface_count() -> (count: usize)
    ensures
        count == interfaces().len(),
{
    2
}

/// The `position`-th interface a session claims.
pub(crate) fn interface_at(position: usize) -> (interface: u8)
    requires
        position < interfaces().len(),
    ensures
        interface == interfaces()[position as int],
{
    if position == 0 {
        USBAUDIO_IFACE
    } else {
        HID_IFACE
    }
}

/// Direction of a transfer, seen from the host.
#[derive(Clone, Copy, Debug, PartialEq, Eq, Structural)]
pub enum Direction {
    /// Device to host.
    In,
    /// Host to device.
    Out,
}

/// Who defines the meaning of a control request.
#[derive(Clone, Copy, Debug, PartialEq, Eq, Structural)]
pub enum RequestKind {
    Standard,
    Class,
    Vendor,
    Reserved,
}

/// What a control request is addressed to.
#[derive(Clone, Copy, Debug, PartialEq, Eq, Structural)]
pub enum Recipient {
    Device,
    Interface,
    Endpoint,
    Other,
}

/// The setup packet of a control transfer.
#[derive(Clone, Copy, Debug, PartialEq, Eq, Structural)]
pub struct ControlSetup {
    /// `bmRequestType`.
    pub request_type: u8,
    /// `bRequest`.
    pub request: u8,
    /// `wValue`.
    pub value: u16,
    /// `wIndex`.
    pub index: u16,
}

/// The `bmRequestType` byte of a control transfer's setup packet: the direction
/// in bit 7, the kind in bits 5 and 6, the recipient in the low bits.
pub open spec fn request_type_bits(direction: Direction, kind: RequestKind, recipient: Recipient) -> u8 {
    let direction_bit: u8 = match direction {
        Direction::Out => 0x00,
        Direction::In => 0x80,
    };
    let kind_bits: u8 = match kind {
        RequestKind::Standard => 0x00,
        RequestKind::Class => 0x20,
        RequestKind::Vendor => 0x40,
        RequestKind::Reserved => 0x60,
    };
    let recipient_bits: u8 = match recipient {
        Recipient::Device => 0x00,
        Recipient::Interface => 0x01,
        Recipient::Endpoint => 0x02,
        Recipient::Other => 0x03,
    };
    (direction_bit + kind_bits + recipient_bits) as u8
}

/// Builds the `bmRequestType` byte by calling `rusb::request_type`.
///
/// Trusted: the contract restates what that function computes. It ORs together
/// one constant per argument, `0x80` for an inbound transfer, the kind's number
/// shifted left by five, and the recipient's number; the three fields share no
/// bit, so the sum in [`request_type_bits`] is the same byte.
#[verifier::external_body]
pub(crate) fn request_type(direction: Direction, kind: RequestKind, recipient: Recipient) -> (bits: u8)
    ensures
        bits == request_type_bits(direction, kind, recipient),
{
    let d = match direction { Direction::In => rusb::Direction::In, Direction::Out => rusb::Direction::Out };
    let k = match kind {
        RequestKind::Standard => rusb::RequestType::Standard,
        RequestKind::Class => rusb::RequestType::Class,
        RequestKind::Vendor => rusb::RequestType::Vendor,
        RequestKind::Reserved => rusb::RequestType::Reserved,
    };
    let r = match recipient {
        Recipient::Device => rusb::Recipient::Device,
        Recipient::Interface => rusb::Recipient::Interface,
        Recipient::Endpoint => rusb::Recipient::Endpoint,
        Recipient::Other => rusb::Recipient::Other,
    };
    rusb::request_type(d, k, r)
}

} // verus!
