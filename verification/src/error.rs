//! What can go wrong while talking to the microphone.

use vstd::prelude::*;

verus! {

/// Why the USB stack could not carry out a request.
#[derive(Clone, Copy, Debug, PartialEq, Eq, Structural)]
pub enum TransportFault {
    /// Input/output error.
    Io,
    /// Invalid parameter.
    InvalidParam,
    /// Access denied.
    Access,
    /// No such device; it may have been disconnected.
    NoDevice,
    /// Entity not found.
    NotFound,
    /// Resource busy.
    Busy,
    /// The request timed out.
    Timeout,
    /// The device offered more data than was asked for.
    Overflow,
    /// The endpoint stalled, or the device does not support the request.
    Pipe,
    /// A system call was interrupted.
    Interrupted,
    /// Out of memory.
    NoMem,
    /// Not supported on this platform.
    NotSupported,
    /// The device returned a malformed descriptor.
    BadDescriptor,
    /// Any other failure.
    Other,
}

/// Why a response frame on the command channel was not accepted.
#[derive(Clone, Copy, Debug, PartialEq, Eq, Structural)]
pub enum ProtocolFault {
    /// The received bytes are not UTF-8 text.
    NotText,
    /// The text does not begin with `dspMode=`.
    MissingPrefix,
    /// No decimal digit follows the prefix.
    MissingNumber,
    /// The digits after the prefix name a number above 255.
    NumberTooLarge,
    /// The number is no known mode code.
    UnrecognizedMode(u8),
}

/// Why an operation on the microphone failed.
///
/// There is no kind for the use of a session after it was reset or closed:
/// those operations take the session by value, so no later use can be written.
#[derive(Clone, Copy, Debug, PartialEq, Eq, Structural)]
pub enum Mv7Error {
    /// No device with the expected vendor and product identifiers is present.
    DeviceNotFound,
    /// The active configuration could not be read or set.
    ConfigurationError(TransportFault),
    /// An interface could not be freed from its kernel driver, claimed, or
    /// switched to its default alternate setting.
    ResourceAcquisitionError { interface: u8, fault: TransportFault },
    /// A control or interrupt transfer failed.
    TransportError(TransportFault),
    /// The device answered with something other than a known mode report.
    ProtocolError(ProtocolFault),
}

impl Mv7Error {
    /// The transport-level fault that best describes this error.
    pub open spec fn spec_fault(self) -> TransportFault {
        match self {
            Mv7Error::DeviceNotFound => TransportFault::NoDevice,
            Mv7Error::ConfigurationError(fault) => fault,
            Mv7Error::ResourceAcquisitionError { interface, fault } => fault,
            Mv7Error::TransportError(fault) => fault,
            Mv7Error::ProtocolError(_) => TransportFault::Other,
        }
    }

    /// The transport-level fault that best describes this error: the fault the
    /// USB stack reported where there was one, `NoDevice` for a missing device,
    /// and `Other` for a response that was not understood.
    #[verifier::when_used_as_spec(spec_fault)]
    pub fn fault(self) -> (fault: TransportFault)
        ensures
            fault == self.spec_fault(),
    {
        match self {
            Mv7Error::DeviceNotFound => TransportFault::NoDevice,
            Mv7Error::ConfigurationError(fault) => fault,
            Mv7Error::ResourceAcquisitionError { interface: _, fault } => fault,
            Mv7Error::TransportError(fault) => fault,
            Mv7Error::ProtocolError(_) => TransportFault::Other,
        }
    }
}

} // verus!
