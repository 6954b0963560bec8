//! The rules of an exchange with the device, as a state machine.
//!
//! An exchange carries one operation from its first request to its result. Its
//! state says which request is outstanding; [`ExchangeState::next`] says how a
//! reply to that request moves it on. Nothing here performs a transfer: the
//! machine is a function from state and reply to state.

use vstd::prelude::*;
use crate::error::{Mv7Error, TransportFault};
use crate::frame::{mode_report, Command};
use crate::mute::{mute_payload, mute_setup};
use crate::position::MicPosition;
use crate::transport::{Action, Reply};
use crate::usb::{
    interfaces, Direction, CONFIGURATION, CONTROL_TIMEOUT_MS, DEFAULT_ALT_SETTING,
    DRAIN_READS, DRAIN_TIMEOUT_MS, FRAME_LEN, HID_EP_IN, HID_EP_OUT, PRODUCT_ID, READ_TIMEOUT_MS,
    SETTLE_MS, VENDOR_ID, WRITE_TIMEOUT_MS,
};

verus! {

/// One claimed interface, and whether a kernel driver was bound to it when the
/// session took it over.
#[derive(Clone, Copy, Debug, PartialEq, Eq, Structural)]
pub struct Claim {
    pub interface: u8,
    pub kernel_attached: bool,
}

/// What an exchange is for.
#[derive(Clone, Copy, Debug, PartialEq, Eq, Structural)]
pub enum Operation {
    Open,
    GetMute,
    SetMute(bool),
    GetMicPosition,
    SetMicPosition(MicPosition),
    Status,
    Reset,
    Close,
}

/// What a finished operation reports.
#[derive(Clone, Copy, Debug, PartialEq, Eq, Structural)]
pub enum Answer {
    /// The operation is done and reports nothing.
    Done,
    /// Whether the microphone is muted.
    Mute(bool),
    /// The number of bytes the mute write sent.
    Written(usize),
    /// The current position.
    Position(MicPosition),
    /// Mute state and position together.
    Status { muted: bool, position: MicPosition },
}

/// The request an exchange is waiting on.
#[derive(Clone, Copy, Debug, PartialEq, Eq)]
pub enum Phase {
    FindDevice,
    ReadConfiguration,
    WriteConfiguration,
    /// Asking whether a kernel driver holds the next interface.
    QueryDriver,
    /// Detaching the kernel driver from the next interface.
    DetachDriver,
    /// Claiming the next interface.
    ClaimInterface { kernel_attached: bool },
    /// Selecting the default alternate setting of the interface just claimed.
    SetAlternateSetting,
    Settle,
    /// Discarding stale input; `reads` reads have been answered with data.
    Drain { reads: u8 },
    ReadMute,
    WriteMute,
    WriteCommand,
    ReadReport,
    ResetDevice,
    /// Releasing the interface claimed last.
    Release,
    /// Giving `interface` back to its kernel driver.
    Reattach { interface: u8 },
    /// Nothing is outstanding; the operation ended with this result.
    Finished(Result<Answer, Mv7Error>),
}

/// The state of an exchange.
#[verifier::ext_equal]
pub struct ExchangeState {
    pub operation: Operation,
    pub phase: Phase,
    /// The interfaces claimed and not yet released, in the order of their claims.
    pub claims: Seq<Claim>,
    /// The mute state read earlier in a status query.
    pub muted: bool,
    /// The error to report once the interfaces have been released.
    pub verdict: Option<Mv7Error>,
}

/// Whether `claims` holds the first interfaces of the session's list, in order.
pub open spec fn claims_in_order(claims: Seq<Claim>) -> bool {
    &&& claims.len() <= interfaces().len()
    &&& forall|i: int| 0 <= i < claims.len() ==> (#[trigger] claims[i]).interface == interfaces()[i]
}

/// Whether `claims` holds every interface of the session's list, in order.
pub open spec fn claims_complete(claims: Seq<Claim>) -> bool {
    claims_in_order(claims) && claims.len() == interfaces().len()
}

/// What the bookkeeping says of `interface`: whether a kernel driver was bound
/// to it when it was claimed, or `None` if it is not on record.
pub open spec fn recorded(claims: Seq<Claim>, interface: u8) -> Option<bool>
    decreases claims.len(),
{
    if claims.len() == 0 {
        None
    } else if claims[0].interface == interface {
        Some(claims[0].kernel_attached)
    } else {
        recorded(claims.skip(1), interface)
    }
}

impl Operation {
    /// Whether the operation works within an open session and leaves it open.
    pub open spec fn within_session(self) -> bool {
        !(self is Open) && !self.ends_session()
    }

    /// Whether the operation ends the session it is given.
    pub open spec fn ends_session(self) -> bool {
        self is Reset || self is Close
    }

    /// Whether the operation talks on the command channel.
    pub open spec fn uses_command_channel(self) -> bool {
        self is GetMicPosition || self is SetMicPosition || self is Status
    }
}

impl ExchangeState {
    /// The interface that the opening sequence works on next.
    pub open spec fn next_interface(self) -> u8 {
        interfaces()[self.claims.len() as int]
    }

    /// The command this exchange writes to the command channel.
    pub open spec fn command(self) -> Command {
        match self.operation {
            Operation::SetMicPosition(position) => Command::SetMode(position),
            _ => Command::QueryMode,
        }
    }

    /// The read that discards one stale frame.
    pub open spec fn drain_read() -> Action {
        Action::InterruptRead { endpoint: HID_EP_IN, length: FRAME_LEN, timeout_ms: DRAIN_TIMEOUT_MS }
    }

    /// The outstanding request, or `None` when the exchange has finished.
    pub open spec fn request(self) -> Option<Action> {
        match self.phase {
            Phase::FindDevice => Some(
                Action::FindDevice { vendor_id: VENDOR_ID, product_id: PRODUCT_ID },
            ),
            Phase::ReadConfiguration => Some(Action::ReadConfiguration),
            Phase::WriteConfiguration => Some(
                Action::WriteConfiguration { configuration: CONFIGURATION },
            ),
            Phase::QueryDriver => Some(Action::QueryKernelDriver { interface: self.next_interface() }),
            Phase::DetachDriver => Some(
                Action::DetachKernelDriver { interface: self.next_interface() },
            ),
            Phase::ClaimInterface { kernel_attached } => Some(
                Action::ClaimInterface { interface: self.next_interface() },
            ),
            Phase::SetAlternateSetting => Some(
                Action::SetAlternateSetting {
                    interface: self.claims.last().interface,
                    setting: DEFAULT_ALT_SETTING,
                },
            ),
            Phase::Settle => Some(Action::Sleep { millis: SETTLE_MS }),
            Phase::Drain { reads } => Some(Self::drain_read()),
            Phase::ReadMute => Some(
                Action::ControlRead {
                    setup: mute_setup(Direction::In),
                    length: 1,
                    timeout_ms: CONTROL_TIMEOUT_MS,
                },
            ),
            Phase::WriteMute => Some(
                Action::ControlWrite {
                    setup: mute_setup(Direction::Out),
                    payload: mute_payload(self.muted),
                    timeout_ms: CONTROL_TIMEOUT_MS,
                },
            ),
            Phase::WriteCommand => Some(
                Action::InterruptWrite {
                    endpoint: HID_EP_OUT,
                    command: self.command(),
                    timeout_ms: WRITE_TIMEOUT_MS,
                },
            ),
            Phase::ReadReport => Some(
                Action::InterruptRead {
                    endpoint: HID_EP_IN,
                    length: FRAME_LEN,
                    timeout_ms: READ_TIMEOUT_MS,
                },
            ),
            Phase::ResetDevice => Some(Action::ResetDevice),
            Phase::Release => Some(
                Action::ReleaseInterface { interface: self.claims.last().interface },
            ),
            Phase::Reattach { interface } => Some(Action::AttachKernelDriver { interface }),
            Phase::Finished(_) => None,
        }
    }

    /// The state an operation starts in. `claims` is the bookkeeping of the
    /// session the operation is given; an open starts with none.
    pub open spec fn start(operation: Operation, claims: Seq<Claim>) -> ExchangeState {
        let blank = ExchangeState {
            operation,
            phase: Phase::FindDevice,
            claims,
            muted: false,
            verdict: None,
        };
        match operation {
            Operation::Open => blank,
            Operation::GetMute => blank.at(Phase::ReadMute),
            Operation::SetMute(muted) => ExchangeState { muted, ..blank.at(Phase::WriteMute) },
            Operation::GetMicPosition => blank.at(Phase::Drain { reads: 0 }),
            Operation::SetMicPosition(_) => blank.at(Phase::Drain { reads: 0 }),
            Operation::Status => blank.at(Phase::ReadMute),
            Operation::Reset => blank.at(Phase::ResetDevice),
            Operation::Close => blank.release(None),
        }
    }

    /// This state, waiting on another request.
    pub open spec fn at(self, phase: Phase) -> ExchangeState {
        ExchangeState { phase, ..self }
    }

    /// This state, finished with `result`.
    pub open spec fn finished(self, result: Result<Answer, Mv7Error>) -> ExchangeState {
        self.at(Phase::Finished(result))
    }

    /// Begins or continues releasing the claimed interfaces, last claimed
    /// first. When none is left the exchange finishes: with `verdict` if it is
    /// an error, with success otherwise.
    pub open spec fn release(self, verdict: Option<Mv7Error>) -> ExchangeState {
        let held = ExchangeState { verdict, ..self };
        if self.claims.len() == 0 {
            match verdict {
                Some(error) => held.finished(Err(error)),
                None => held.finished(Ok(Answer::Done)),
            }
        } else {
            held.at(Phase::Release)
        }
    }

    /// The operation fails with `error`. An operation within a session ends
    /// at once and leaves the session as it was. An open first gives back what
    /// it has claimed, and a reset what the session holds.
    pub open spec fn fail(self, error: Mv7Error) -> ExchangeState {
        if self.operation.within_session() {
            self.finished(Err(error))
        } else {
            self.release(Some(error))
        }
    }

    /// The stale input is gone: an open is complete, any other operation
    /// writes its command.
    pub open spec fn drained(self) -> ExchangeState {
        if self.operation is Open {
            self.finished(Ok(Answer::Done))
        } else {
            self.at(Phase::WriteCommand)
        }
    }

    /// The interface that the outstanding request is about, where it is one
    /// of the opening sequence.
    pub open spec fn interface_in_hand(self) -> u8 {
        if self.phase is SetAlternateSetting {
            self.claims.last().interface
        } else {
            self.next_interface()
        }
    }

    /// The error with which the operation fails when the outstanding request
    /// is answered with `reply`, or `None` when the reply lets it go on.
    ///
    /// A reply that is neither the answer the request calls for nor a failure
    /// is taken as a failure with the fault `Other`.
    /// - The lookup fails with `DeviceNotFound` when no device is present, and
    ///   with a transport error when the lookup itself fails.
    /// - Reading and setting the configuration fail with `ConfigurationError`.
    /// - Querying and detaching the kernel driver, claiming the interface and
    ///   selecting its alternate setting fail with `ResourceAcquisitionError`,
    ///   which names the interface.
    /// - A drain does not fail on a timeout; it fails on any other fault.
    /// - Every other transfer, and the reset, fails with `TransportError`.
    /// - A report that is read fails with `ProtocolError` unless it names a
    ///   known mode; the acknowledgement of a change of mode is not read.
    /// - The pause, and the release and reattachment of an interface, fail on
    ///   nothing.
    pub open spec fn failure(self, reply: Reply) -> Option<Mv7Error> {
        let fault = reply.fault();
        let acquisition = Mv7Error::ResourceAcquisitionError {
            interface: self.interface_in_hand(),
            fault,
        };
        match self.phase {
            Phase::FindDevice => match reply {
                Reply::Done => None,
                Reply::Absent => Some(Mv7Error::DeviceNotFound),
                _ => Some(Mv7Error::TransportError(fault)),
            },
            Phase::ReadConfiguration => if reply is Configuration {
                None
            } else {
                Some(Mv7Error::ConfigurationError(fault))
            },
            Phase::WriteConfiguration => if reply is Done {
                None
            } else {
                Some(Mv7Error::ConfigurationError(fault))
            },
            Phase::QueryDriver => if reply is KernelDriver {
                None
            } else {
                Some(acquisition)
            },
            Phase::DetachDriver => if reply is Done {
                None
            } else {
                Some(acquisition)
            },
            Phase::ClaimInterface { kernel_attached } => if reply is Done {
                None
            } else {
                Some(acquisition)
            },
            Phase::SetAlternateSetting => if reply is Done {
                None
            } else {
                Some(acquisition)
            },
            Phase::Settle => None,
            Phase::Drain { reads } => if reply is Data || reply == Reply::Failed(
                TransportFault::Timeout,
            ) {
                None
            } else {
                Some(Mv7Error::TransportError(fault))
            },
            Phase::ReadMute => if reply is Data {
                None
            } else {
                Some(Mv7Error::TransportError(fault))
            },
            Phase::WriteMute => if reply is Written {
                None
            } else {
                Some(Mv7Error::TransportError(fault))
            },
            Phase::WriteCommand => if reply is Written {
                None
            } else {
                Some(Mv7Error::TransportError(fault))
            },
            Phase::ReadReport => match reply {
                Reply::Data(frame) => if self.operation is SetMicPosition {
                    None
                } else {
                    match mode_report(frame@) {
                        Ok(_) => None,
                        Err(unread) => Some(Mv7Error::ProtocolError(unread)),
                    }
                },
                _ => Some(Mv7Error::TransportError(fault)),
            },
            Phase::ResetDevice => if reply is Done {
                None
            } else {
                Some(Mv7Error::TransportError(fault))
            },
            Phase::Release => None,
            Phase::Reattach { interface } => None,
            Phase::Finished(_) => None,
        }
    }

    /// The state after a reply that lets the operation go on.
    ///
    /// - An open looks the device up, reads its configuration and sets it if
    ///   it is not the expected one, then takes each interface in turn: it
    ///   asks for a kernel driver, detaches it if there is one, claims the
    ///   interface, puts it on record, and selects its default alternate
    ///   setting. After the last interface it pauses and drains.
    /// - A drain goes on while reads return data and it has reads left, and is
    ///   over at the first timeout.
    /// - A mute query ends with what it read; within a status query it is
    ///   followed by a position query.
    /// - A position query or change drains, writes its command, and reads the
    ///   answer.
    /// - A reset is followed by the release of the session's interfaces.
    /// - A release takes the interface claimed last off the record, gives it
    ///   back to its kernel driver if it had one, and goes on to the one
    ///   claimed before it.
    pub open spec fn proceed(self, reply: Reply) -> ExchangeState {
        match self.phase {
            Phase::FindDevice => self.at(Phase::ReadConfiguration),
            Phase::ReadConfiguration => if reply == Reply::Configuration(CONFIGURATION) {
                self.at(Phase::QueryDriver)
            } else {
                self.at(Phase::WriteConfiguration)
            },
            Phase::WriteConfiguration => self.at(Phase::QueryDriver),
            Phase::QueryDriver => if reply == Reply::KernelDriver(true) {
                self.at(Phase::DetachDriver)
            } else {
                self.at(Phase::ClaimInterface { kernel_attached: false })
            },
            Phase::DetachDriver => self.at(Phase::ClaimInterface { kernel_attached: true }),
            Phase::ClaimInterface { kernel_attached } => ExchangeState {
                claims: self.claims.push(Claim { interface: self.next_interface(), kernel_attached }),
                ..self.at(Phase::SetAlternateSetting)
            },
            Phase::SetAlternateSetting => if self.claims.len() < interfaces().len() {
                self.at(Phase::QueryDriver)
            } else {
                self.at(Phase::Settle)
            },
            Phase::Settle => self.at(Phase::Drain { reads: 0 }),
            Phase::Drain { reads } => if reply is Data && reads + 1 < DRAIN_READS {
                self.at(Phase::Drain { reads: (reads + 1) as u8 })
            } else {
                self.drained()
            },
            Phase::ReadMute => if self.operation is Status {
                ExchangeState { muted: reply.reading(), ..self.at(Phase::Drain { reads: 0 }) }
            } else {
                self.finished(Ok(Answer::Mute(reply.reading())))
            },
            Phase::WriteMute => self.finished(Ok(Answer::Written(reply.written()))),
            Phase::WriteCommand => self.at(Phase::ReadReport),
            Phase::ReadReport => self.finished(Ok(self.answer(reply))),
            Phase::ResetDevice => self.release(None),
            Phase::Release => {
                let released = self.claims.last();
                let rest = ExchangeState { claims: self.claims.drop_last(), ..self };
                if released.kernel_attached {
                    rest.at(Phase::Reattach { interface: released.interface })
                } else {
                    rest.release(self.verdict)
                }
            },
            Phase::Reattach { interface } => self.release(self.verdict),
            Phase::Finished(_) => self,
        }
    }

    /// What the operation reports when the firmware has answered its command
    /// with `reply`: nothing for a change of mode, whose acknowledgement is not
    /// read, and the reported position for a query.
    pub open spec fn answer(self, reply: Reply) -> Answer {
        match self.operation {
            Operation::SetMicPosition(_) => Answer::Done,
            Operation::Status => Answer::Status { muted: self.muted, position: reply.position() },
            _ => Answer::Position(reply.position()),
        }
    }

    /// The state after the outstanding request was answered with `reply`.
    ///
    /// A reply that makes the operation fail ends it with that error: at once
    /// within a session, which stays open; after the release of what was
    /// claimed in an open; after the release of the session's interfaces in a
    /// reset. Any other reply lets the operation go on. A finished exchange
    /// stays as it is.
    pub open spec fn next(self, reply: Reply) -> ExchangeState {
        match self.failure(reply) {
            Some(error) => self.fail(error),
            None => self.proceed(reply),
        }
    }

    /// Whether the exchange has finished.
    pub open spec fn is_finished(self) -> bool {
        self.phase is Finished
    }

    /// Whether the exchange has finished and an open session comes out of it:
    /// a successful open yields one, an operation within a session gives back
    /// the one it was given, and a reset or close yields none.
    pub open spec fn yields_session(self) -> bool {
        match self.phase {
            Phase::Finished(result) => match self.operation {
                Operation::Open => result is Ok,
                Operation::Reset => false,
                Operation::Close => false,
                _ => true,
            },
            _ => false,
        }
    }

    /// Whether the state is one that an exchange can be in.
    pub open spec fn wf(self) -> bool {
        &&& claims_in_order(self.claims)
        &&& match self.phase {
            Phase::FindDevice => self.operation is Open && self.claims.len() == 0,
            Phase::ReadConfiguration => self.operation is Open && self.claims.len() == 0,
            Phase::WriteConfiguration => self.operation is Open && self.claims.len() == 0,
            Phase::QueryDriver => self.operation is Open && self.claims.len() < interfaces().len(),
            Phase::DetachDriver => self.operation is Open && self.claims.len() < interfaces().len(),
            Phase::ClaimInterface { kernel_attached } => self.operation is Open && self.claims.len()
                < interfaces().len(),
            Phase::SetAlternateSetting => self.operation is Open && self.claims.len() > 0,
            Phase::Settle => self.operation is Open && claims_complete(self.claims),
            Phase::Drain { reads } => {
                &&& reads < DRAIN_READS
                &&& self.operation is Open || self.operation.uses_command_channel()
                &&& claims_complete(self.claims)
            },
            Phase::ReadMute => {
                &&& self.operation is GetMute || self.operation is Status
                &&& claims_complete(self.claims)
            },
            Phase::WriteMute => {
                &&& self.operation == Operation::SetMute(self.muted)
                &&& claims_complete(self.claims)
            },
            Phase::WriteCommand => {
                &&& self.operation.uses_command_channel()
                &&& claims_complete(self.claims)
            },
            Phase::ReadReport => {
                &&& self.operation.uses_command_channel()
                &&& claims_complete(self.claims)
            },
            Phase::ResetDevice => self.operation is Reset && claims_complete(self.claims),
            Phase::Release => {
                &&& self.claims.len() > 0
                &&& self.releasing()
            },
            Phase::Reattach { interface } => self.releasing(),
            Phase::Finished(result) => {
                &&& self.yields_session() ==> claims_complete(self.claims)
                &&& !self.yields_session() ==> self.claims.len() == 0
                &&& !self.operation.within_session() ==> (result is Err <==> self.verdict is Some)
                &&& self.verdict matches Some(error) ==> result == Err::<Answer, Mv7Error>(error)
            },
        }
        &&& self.verdict is Some ==> {
            &&& self.operation is Open || self.operation is Reset
            &&& self.phase is Release || self.phase is Reattach || self.phase is Finished
        }
    }

    /// Whether the exchange is one that releases interfaces: a reset, a close,
    /// or an open that failed.
    pub open spec fn releasing(self) -> bool {
        ||| self.operation is Open && self.verdict is Some
        ||| self.operation is Reset
        ||| self.operation is Close && self.verdict is None
    }
}

/// A request together with the reply it got.
pub type Entry = (Action, Reply);

impl ExchangeState {
    /// The state after the replies were handed in one after another.
    pub open spec fn run(self, replies: Seq<Reply>) -> ExchangeState
        decreases replies.len(),
    {
        if replies.len() == 0 {
            self
        } else {
            self.next(replies[0]).run(replies.skip(1))
        }
    }

    /// The requests performed on the way, each with its reply. Replies left
    /// over when the exchange has finished answer no request.
    pub open spec fn log(self, replies: Seq<Reply>) -> Seq<Entry>
        decreases replies.len(),
    {
        if replies.len() == 0 || self.is_finished() {
            Seq::empty()
        } else {
            seq![(self.request().unwrap(), replies[0])] + self.next(replies[0]).log(replies.skip(1))
        }
    }
}

/// The requests of a log, without their replies.
pub open spec fn requests(log: Seq<Entry>) -> Seq<Action> {
    log.map_values(|entry: Entry| entry.0)
}

/// Every operation starts in a state an exchange can be in, given the
/// bookkeeping of an open session (or none, for an open).
pub proof fn start_is_wf(operation: Operation, claims: Seq<Claim>)
    requires
        if operation is Open {
            claims.len() == 0
        } else {
            claims_complete(claims)
        },
    ensures
        ExchangeState::start(operation, claims).wf(),
{
}

/// No reply leads out of the states an exchange can be in.
pub proof fn next_is_wf(state: ExchangeState, reply: Reply)
    requires
        state.wf(),
    ensures
        state.next(reply).wf(),
{
}

} // verus!
