//! What a session asks of the USB stack, and what the USB stack answers.
//!
//! A session performs no transfer itself. It names the next request as an
//! [`Action`]; whoever owns the device handle carries the request out and hands
//! back a [`Reply`].

use vstd::prelude::*;
use crate::error::TransportFault;
use crate::frame::{mode_report, Command};
use crate::mute::mute_reading;
use crate::position::MicPosition;
use crate::usb::ControlSetup;

verus! {

/// One request to the USB stack.
#[derive(Clone, Copy, Debug, PartialEq, Eq, Structural)]
pub enum Action {
    /// Open the first device with these identifiers.
    FindDevice { vendor_id: u16, product_id: u16 },
    /// Read the number of the active configuration.
    ReadConfiguration,
    /// Make `configuration` the active configuration.
    WriteConfiguration { configuration: u8 },
    /// Ask whether a kernel driver is bound to `interface`.
    QueryKernelDriver { interface: u8 },
    /// Detach the kernel driver from `interface`.
    DetachKernelDriver { interface: u8 },
    /// Claim `interface`.
    ClaimInterface { interface: u8 },
    /// Select an alternate setting of `interface`.
    SetAlternateSetting { interface: u8, setting: u8 },
    /// Wait.
    Sleep { millis: u64 },
    /// Read up to `length` bytes with a control transfer.
    ControlRead { setup: ControlSetup, length: usize, timeout_ms: u64 },
    /// Write the single byte `payload` with a control transfer.
    ControlWrite { setup: ControlSetup, payload: u8, timeout_ms: u64 },
    /// Read up to `length` bytes from an interrupt endpoint.
    InterruptRead { endpoint: u8, length: usize, timeout_ms: u64 },
    /// Write the frame of `command` to an interrupt endpoint.
    InterruptWrite { endpoint: u8, command: Command, timeout_ms: u64 },
    /// Reset the device.
    ResetDevice,
    /// Release `interface`.
    ReleaseInterface { interface: u8 },
    /// Attach a kernel driver to `interface`.
    AttachKernelDriver { interface: u8 },
}

/// The outcome of one request.
#[derive(Debug, PartialEq, Eq)]
pub enum Reply {
    /// The request succeeded and has nothing to report.
    Done,
    /// No matching device is present.
    Absent,
    /// The number of the active configuration.
    Configuration(u8),
    /// Whether a kernel driver is bound to the interface.
    KernelDriver(bool),
    /// The bytes that a read received.
    Data(Vec<u8>),
    /// The number of bytes that a write sent.
    Written(usize),
    /// The request failed.
    Failed(TransportFault),
}

impl Reply {
    /// The fault a reply stands for when it is not the answer that was hoped
    /// for: the reported fault of a failure, and `Other` for a reply that does
    /// not answer the request at all.
    pub open spec fn fault(self) -> TransportFault {
        match self {
            Reply::Failed(fault) => fault,
            _ => TransportFault::Other,
        }
    }

    /// The mute state that received bytes report; `false` for any other reply.
    pub open spec fn reading(self) -> bool {
        match self {
            Reply::Data(data) => mute_reading(data@),
            _ => false,
        }
    }

    /// The number of bytes that a write sent; zero for any other reply.
    pub open spec fn written(self) -> usize {
        match self {
            Reply::Written(count) => count,
            _ => 0,
        }
    }

    /// The position that a received frame reports; `Near` for a reply that
    /// reports none.
    pub open spec fn position(self) -> MicPosition {
        match self {
            Reply::Data(frame) => match mode_report(frame@) {
                Ok(position) => position,
                Err(_) => MicPosition::Near,
            },
            _ => MicPosition::Near,
        }
    }
}

} // verus!
