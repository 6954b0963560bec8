//! The mute control: a feature of the audio-control interface that is read and
//! written with class-specific control transfers.

use vstd::prelude::*;
use crate::usb::{
    request_type, request_type_bits, ControlSetup, Direction, Recipient, RequestKind,
    USBAUDIO_IFACE,
};

verus! {

/// Request codes of the USB Audio Class for reading and writing a control's
/// current value.
#[derive(Clone, Copy, Debug, PartialEq, Eq, Structural)]
pub enum ControlRequest {
    SetCur,
    GetCur,
}

impl ControlRequest {
    /// The `bRequest` value of this request.
    pub open spec fn spec_code(self) -> u8 {
        match self {
            ControlRequest::SetCur => 0x01,
            ControlRequest::GetCur => 0x81,
        }
    }

    /// The `bRequest` value of this request.
    #[verifier::when_used_as_spec(spec_code)]
    pub fn code(self) -> (code: u8)
        ensures
            code == self.spec_code(),
    {
        match self {
            ControlRequest::SetCur => 0x01,
            ControlRequest::GetCur => 0x81,
        }
    }
}

/// Identifier of the feature unit that controls the microphone.
pub const MIC_FEATURE_UNIT: u8 = 0x06;

/// Control selector of the mute control within a feature unit.
pub const MUTE_CONTROL: u8 = 0x01;

/// Two bytes as one 16-bit field: `high` in the upper byte, `low` in the lower.
pub open spec fn word(high: u8, low: u8) -> u16 {
    (high * 256 + low) as u16
}

/// The setup packet that reads (`In`) or writes (`Out`) the mute control: a
/// class request to the audio-control interface, GET_CUR or SET_CUR, with the
/// control selector over the interface number as value and the feature unit
/// over the interface number as index.
pub open spec fn mute_setup(direction: Direction) -> ControlSetup {
    ControlSetup {
        request_type: request_type_bits(direction, RequestKind::Class, Recipient::Interface),
        request: match direction {
            Direction::In => ControlRequest::GetCur.spec_code(),
            Direction::Out => ControlRequest::SetCur.spec_code(),
        },
        value: word(MUTE_CONTROL, USBAUDIO_IFACE),
        index: word(MIC_FEATURE_UNIT, USBAUDIO_IFACE),
    }
}

/// Joins two bytes into one 16-bit field.
fn make_word(high: u8, low: u8) -> (joined: u16)
    ensures
        joined == word(high, low),
{
    let joined: u16 = ((high as u16) << 8) | (low as u16);
    assert(((high as u16) << 8) | (low as u16) == (high as u16) * 256 + (low as u16)) by (bit_vector);
    joined
}

/// Builds the setup packet that reads or writes the mute control.
pub fn mute_request(direction: Direction) -> (setup: ControlSetup)
    ensures
        setup == mute_setup(direction),
{
    let request = match direction {
        Direction::In => ControlRequest::GetCur,
        Direction::Out => ControlRequest::SetCur,
    };
    ControlSetup {
        request_type: request_type(direction, RequestKind::Class, Recipient::Interface),
        request: request.code(),
        value: make_word(MUTE_CONTROL, USBAUDIO_IFACE),
        index: make_word(MIC_FEATURE_UNIT, USBAUDIO_IFACE),
    }
}

/// Whether the byte a mute query returned says that the microphone is muted:
/// any nonzero byte does. An empty reply counts as unmuted.
pub open spec fn mute_reading(data: Seq<u8>) -> bool {
    data.len() > 0 && data[0] != 0
}

/// The payload byte that sets the mute state.
pub open spec fn mute_payload(muted: bool) -> u8 {
    if muted {
        1
    } else {
        0
    }
}

/// Reads the reply to a mute query.
pub fn read_mute(data: &[u8]) -> (muted: bool)
    ensures
        muted == mute_reading(data@),
{
    data.len() > 0 && data[0] != 0
}

/// The payload byte that sets the mute state: 1 to mute, 0 to unmute.
pub fn encode_mute(muted: bool) -> (payload: u8)
    ensures
        payload == mute_payload(muted),
{
    if muted {
        1
    } else {
        0
    }
}

} // verus!
