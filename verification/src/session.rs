//! Sessions with the microphone, and the exchanges that carry their operations.
//!
//! An [`MV7Device`] stands for exclusive ownership of the device's interfaces.
//! Each operation takes the session by value and returns an [`Exchange`]: the
//! caller performs the requests the exchange names, hands each reply back, and
//! at the end receives the result together with the session, if the operation
//! left one. A reset or a close leaves none, so nothing can be asked of a
//! session after it ended, nor while another operation is under way.

use vstd::prelude::*;
use crate::error::{Mv7Error, TransportFault};
use crate::frame::{parse_mode_report, Command};
use crate::machine::{
    claims_complete, next_is_wf, recorded, requests, start_is_wf, Answer, Claim, ExchangeState,
    Operation, Phase,
};
use crate::mute::{encode_mute, mute_request, read_mute};
use crate::position::MicPosition;
use crate::transport::{Action, Reply};
use crate::usb::{
    interface_at, interface_count, Direction, CONFIGURATION, CONTROL_TIMEOUT_MS,
    DEFAULT_ALT_SETTING, DRAIN_READS, DRAIN_TIMEOUT_MS, FRAME_LEN, HID_EP_IN, HID_EP_OUT,
    PRODUCT_ID, READ_TIMEOUT_MS, SETTLE_MS, VENDOR_ID, WRITE_TIMEOUT_MS,
};

verus! {

/// An open session: the device's interfaces are claimed, and for each of them
/// it is on record whether a kernel driver has to get it back.
#[derive(Debug)]
pub struct MV7Device {
    was_kernel_attached: Vec<Claim>,
}

/// One operation under way.
#[derive(Debug)]
pub struct Exchange {
    operation: Operation,
    phase: Phase,
    claims: Vec<Claim>,
    muted: bool,
    verdict: Option<Mv7Error>,
}

/// How an operation ended.
#[derive(Debug)]
pub struct Completion {
    /// The session, if the operation left one open.
    pub session: Option<MV7Device>,
    /// What the operation reports.
    pub result: Result<Answer, Mv7Error>,
}

impl View for MV7Device {
    type V = Seq<Claim>;

    /// The session's bookkeeping: its claimed interfaces in the order of their
    /// claims, each with the state of its kernel driver at that time.
    closed spec fn view(&self) -> Seq<Claim> {
        self.was_kernel_attached@
    }
}

impl View for Exchange {
    type V = ExchangeState;

    closed spec fn view(&self) -> ExchangeState {
        ExchangeState {
            operation: self.operation,
            phase: self.phase,
            claims: self.claims@,
            muted: self.muted,
            verdict: self.verdict,
        }
    }
}

/// The fault a reply stands for when it is not the answer that was hoped for.
fn fault_of(reply: &Reply) -> (fault: TransportFault)
    ensures
        fault == reply.fault(),
{
    match reply {
        Reply::Failed(fault) => *fault,
        _ => TransportFault::Other,
    }
}

impl MV7Device {
    /// Whether the bookkeeping covers every interface of a session.
    pub open spec fn wf(&self) -> bool {
        claims_complete(self@)
    }

    /// A session always holds every one of its interfaces.
    #[verifier::type_invariant]
    spec fn inv(&self) -> bool {
        self.wf()
    }

    /// Begins opening a session: find the device, put it in the expected
    /// configuration, take each interface over, let it settle, and discard
    /// what the firmware has buffered.
    pub fn open() -> (exchange: Exchange)
        ensures
            exchange@ == ExchangeState::start(Operation::Open, Seq::empty()),
            exchange@.wf(),
    {
        proof {
            start_is_wf(Operation::Open, Seq::empty());
        }
        Exchange {
            operation: Operation::Open,
            phase: Phase::FindDevice,
            claims: Vec::new(),
            muted: false,
            verdict: None,
        }
    }

    /// Begins `operation` on this session.
    fn begin(self, operation: Operation) -> (exchange: Exchange)
        requires
            !(operation is Open),
        ensures
            exchange@ == ExchangeState::start(operation, self@),
            exchange@.wf(),
    {
        proof {
            use_type_invariant(&self);
            start_is_wf(operation, self@);
        }
        let phase = match operation {
            Operation::Open => Phase::FindDevice,
            Operation::GetMute => Phase::ReadMute,
            Operation::SetMute(_) => Phase::WriteMute,
            Operation::GetMicPosition => Phase::Drain { reads: 0 },
            Operation::SetMicPosition(_) => Phase::Drain { reads: 0 },
            Operation::Status => Phase::ReadMute,
            Operation::Reset => Phase::ResetDevice,
            Operation::Close => Phase::Release,
        };
        let muted = match operation {
            Operation::SetMute(muted) => muted,
            _ => false,
        };
        Exchange { operation, phase, claims: self.was_kernel_attached, muted, verdict: None }
    }

    /// Begins resetting the device. The session ends with this exchange,
    /// whether the reset succeeds or not; its interfaces are released after
    /// the reset was attempted.
    pub fn reset_device(self) -> (exchange: Exchange)
        ensures
            exchange@ == ExchangeState::start(Operation::Reset, self@),
            exchange@.wf(),
    {
        self.begin(Operation::Reset)
    }

    /// Begins closing the session: every interface is released, and given back
    /// to its kernel driver if it had one.
    pub fn close(self) -> (exchange: Exchange)
        ensures
            exchange@ == ExchangeState::start(Operation::Close, self@),
            exchange@.wf(),
    {
        self.begin(Operation::Close)
    }

    /// Begins reading mute state and position together, mute first.
    pub fn status(self) -> (exchange: Exchange)
        ensures
            exchange@ == ExchangeState::start(Operation::Status, self@),
            exchange@.wf(),
    {
        self.begin(Operation::Status)
    }

    /// Begins reading the mute state.
    pub fn get_mute(self) -> (exchange: Exchange)
        ensures
            exchange@ == ExchangeState::start(Operation::GetMute, self@),
            exchange@.wf(),
    {
        self.begin(Operation::GetMute)
    }

    /// Begins setting the mute state.
    pub fn set_mute(self, mute: bool) -> (exchange: Exchange)
        ensures
            exchange@ == ExchangeState::start(Operation::SetMute(mute), self@),
            exchange@.wf(),
    {
        self.begin(Operation::SetMute(mute))
    }

    /// Begins reading the position.
    pub fn get_mic_position(self) -> (exchange: Exchange)
        ensures
            exchange@ == ExchangeState::start(Operation::GetMicPosition, self@),
            exchange@.wf(),
    {
        self.begin(Operation::GetMicPosition)
    }

    /// Begins setting the position.
    pub fn set_mic_position(self, position: MicPosition) -> (exchange: Exchange)
        ensures
            exchange@ == ExchangeState::start(Operation::SetMicPosition(position), self@),
            exchange@.wf(),
    {
        self.begin(Operation::SetMicPosition(position))
    }

    /// Whether a kernel driver was bound to `interface` when the session
    /// claimed it, or `None` if the session holds no such interface.
    pub fn was_kernel_attached(&self, interface: u8) -> (attached: Option<bool>)
        ensures
            attached == recorded(self@, interface),
    {
        let mut i: usize = 0;
        assert(self@.skip(0) =~= self@);
        while i < self.was_kernel_attached.len()
            invariant
                i <= self.was_kernel_attached.len(),
                recorded(self@, interface) == recorded(self@.skip(i as int), interface),
            decreases self.was_kernel_attached.len() - i,
        {
            let claim = self.was_kernel_attached[i];
            if claim.interface == interface {
                return Some(claim.kernel_attached);
            }
            assert(self@.skip(i as int).skip(1) =~= self@.skip(i + 1));
            i = i + 1;
        }
        None
    }
}

impl Exchange {
    /// An exchange is always in a state that its operation can reach.
    #[verifier::type_invariant]
    spec fn inv(&self) -> bool {
        self@.wf()
    }

    /// The request to perform now, or `None` when the exchange has finished.
    pub fn request(&self) -> (action: Option<Action>)
        ensures
            action == self@.request(),
    {
        proof {
            use_type_invariant(self);
        }
        match self.phase {
            Phase::FindDevice => Some(
                Action::FindDevice { vendor_id: VENDOR_ID, product_id: PRODUCT_ID },
            ),
            Phase::ReadConfiguration => Some(Action::ReadConfiguration),
            Phase::WriteConfiguration => Some(
                Action::WriteConfiguration { configuration: CONFIGURATION },
            ),
            Phase::QueryDriver => Some(
                Action::QueryKernelDriver { interface: interface_at(self.claims.len()) },
            ),
            Phase::DetachDriver => Some(
                Action::DetachKernelDriver { interface: interface_at(self.claims.len()) },
            ),
            Phase::ClaimInterface { kernel_attached: _ } => Some(
                Action::ClaimInterface { interface: interface_at(self.claims.len()) },
            ),
            Phase::SetAlternateSetting => Some(
                Action::SetAlternateSetting {
                    interface: self.claims[self.claims.len() - 1].interface,
                    setting: DEFAULT_ALT_SETTING,
                },
            ),
            Phase::Settle => Some(Action::Sleep { millis: SETTLE_MS }),
            Phase::Drain { reads: _ } => Some(
                Action::InterruptRead {
                    endpoint: HID_EP_IN,
                    length: FRAME_LEN,
                    timeout_ms: DRAIN_TIMEOUT_MS,
                },
            ),
            Phase::ReadMute => Some(
                Action::ControlRead {
                    setup: mute_request(Direction::In),
                    length: 1,
                    timeout_ms: CONTROL_TIMEOUT_MS,
                },
            ),
            Phase::WriteMute => Some(
                Action::ControlWrite {
                    setup: mute_request(Direction::Out),
                    payload: encode_mute(self.muted),
                    timeout_ms: CONTROL_TIMEOUT_MS,
                },
            ),
            Phase::WriteCommand => Some(
                Action::InterruptWrite {
                    endpoint: HID_EP_OUT,
                    command: self.command(),
                    timeout_ms: WRITE_TIMEOUT_MS,
                },
            ),
            Phase::ReadReport => Some(
                Action::InterruptRead {
                    endpoint: HID_EP_IN,
                    length: FRAME_LEN,
                    timeout_ms: READ_TIMEOUT_MS,
                },
            ),
            Phase::ResetDevice => Some(Action::ResetDevice),
            Phase::Release => Some(
                Action::ReleaseInterface { interface: self.claims[self.claims.len() - 1].interface },
            ),
            Phase::Reattach { interface } => Some(Action::AttachKernelDriver { interface }),
            Phase::Finished(_) => None,
        }
    }

    /// The command this exchange writes to the command channel.
    fn command(&self) -> (command: Command)
        ensures
            command == self@.command(),
    {
        match self.operation {
            Operation::SetMicPosition(position) => Command::SetMode(position),
            _ => Command::QueryMode,
        }
    }

    /// Whether the exchange has finished.
    pub fn is_finished(&self) -> (finished: bool)
        ensures
            finished == self@.is_finished(),
    {
        match self.phase {
            Phase::Finished(_) => true,
            _ => false,
        }
    }

    /// Takes the reply to the outstanding request and moves on to the next
    /// request, or to the result.
    pub fn advance(self, reply: &Reply) -> (next: Exchange)
        ensures
            next@ == self@.next(*reply),
            next@.wf(),
    {
        proof {
            use_type_invariant(&self);
            next_is_wf(self@, *reply);
        }
        match self.phase {
            Phase::FindDevice => match reply {
                Reply::Done => self.at(Phase::ReadConfiguration),
                Reply::Absent => self.fail(Mv7Error::DeviceNotFound),
                other => {
                    let fault = fault_of(other);
                    self.fail(Mv7Error::TransportError(fault))
                },
            },
            Phase::ReadConfiguration => match reply {
                Reply::Configuration(active) => if *active == CONFIGURATION {
                    self.at(Phase::QueryDriver)
                } else {
                    self.at(Phase::WriteConfiguration)
                },
                other => {
                    let fault = fault_of(other);
                    self.fail(Mv7Error::ConfigurationError(fault))
                },
            },
            Phase::WriteConfiguration => match reply {
                Reply::Done => self.at(Phase::QueryDriver),
                other => {
                    let fault = fault_of(other);
                    self.fail(Mv7Error::ConfigurationError(fault))
                },
            },
            Phase::QueryDriver => match reply {
                Reply::KernelDriver(true) => self.at(Phase::DetachDriver),
                Reply::KernelDriver(false) => self.at(Phase::ClaimInterface { kernel_attached: false }),
                other => {
                    let interface = interface_at(self.claims.len());
                    let fault = fault_of(other);
                    self.fail(Mv7Error::ResourceAcquisitionError { interface, fault })
                },
            },
            Phase::DetachDriver => match reply {
                Reply::Done => self.at(Phase::ClaimInterface { kernel_attached: true }),
                other => {
                    let interface = interface_at(self.claims.len());
                    let fault = fault_of(other);
                    self.fail(Mv7Error::ResourceAcquisitionError { interface, fault })
                },
            },
            Phase::ClaimInterface { kernel_attached } => match reply {
                Reply::Done => self.claimed(kernel_attached),
                other => {
                    let interface = interface_at(self.claims.len());
                    let fault = fault_of(other);
                    self.fail(Mv7Error::ResourceAcquisitionError { interface, fault })
                },
            },
            Phase::SetAlternateSetting => match reply {
                Reply::Done => if self.claims.len() < interface_count() {
                    self.at(Phase::QueryDriver)
                } else {
                    self.at(Phase::Settle)
                },
                other => {
                    let interface = self.claims[self.claims.len() - 1].interface;
                    let fault = fault_of(other);
                    self.fail(Mv7Error::ResourceAcquisitionError { interface, fault })
                },
            },
            Phase::Settle => self.at(Phase::Drain { reads: 0 }),
            Phase::Drain { reads } => match reply {
                Reply::Data(_) => if reads + 1 < DRAIN_READS {
                    self.at(Phase::Drain { reads: reads + 1 })
                } else {
                    self.drained()
                },
                Reply::Failed(TransportFault::Timeout) => self.drained(),
                other => {
                    let fault = fault_of(other);
                    self.fail(Mv7Error::TransportError(fault))
                },
            },
            Phase::ReadMute => match reply {
                Reply::Data(data) => {
                    let muted = read_mute(data.as_slice());
                    match self.operation {
                        Operation::Status => self.heard(muted),
                        _ => self.finished(Ok(Answer::Mute(muted))),
                    }
                },
                other => {
                    let fault = fault_of(other);
                    self.fail(Mv7Error::TransportError(fault))
                },
            },
            Phase::WriteMute => match reply {
                Reply::Written(count) => self.finished(Ok(Answer::Written(*count))),
                other => {
                    let fault = fault_of(other);
                    self.fail(Mv7Error::TransportError(fault))
                },
            },
            Phase::WriteCommand => match reply {
                Reply::Written(_) => self.at(Phase::ReadReport),
                other => {
                    let fault = fault_of(other);
                    self.fail(Mv7Error::TransportError(fault))
                },
            },
            Phase::ReadReport => match reply {
                Reply::Data(frame) => self.reported(reply, frame.as_slice()),
                other => {
                    let fault = fault_of(other);
                    self.fail(Mv7Error::TransportError(fault))
                },
            },
            Phase::ResetDevice => match reply {
                Reply::Done => self.release(None),
                other => {
                    let fault = fault_of(other);
                    self.fail(Mv7Error::TransportError(fault))
                },
            },
            Phase::Release => self.released(),
            Phase::Reattach { interface: _ } => {
                let verdict = self.verdict;
                self.release(verdict)
            },
            Phase::Finished(_) => self,
        }
    }

    /// Hands in `replies` one after another, as a caller does whose requests
    /// the device answers with them, and stops at the result or when the
    /// replies run out. Returns the exchange as it then stands, and the
    /// requests that were answered, in order.
    pub fn replay(self, replies: &Vec<Reply>) -> (played: (Exchange, Vec<Action>))
        ensures
            played.0@ == self@.run(replies@),
            played.0@.wf(),
            played.1@ == requests(self@.log(replies@)),
    {
        proof {
            use_type_invariant(&self);
        }
        let ghost start = self@;
        let mut exchange = self;
        let mut performed: Vec<Action> = Vec::new();
        let mut i: usize = 0;
        assert(replies@.skip(0) =~= replies@);
        while i < replies.len()
            invariant
                i <= replies.len(),
                exchange@.wf(),
                start.run(replies@) == exchange@.run(replies@.skip(i as int)),
                requests(start.log(replies@)) == performed@ + requests(
                    exchange@.log(replies@.skip(i as int)),
                ),
            decreases replies.len() - i,
        {
            let ghost rest = replies@.skip(i as int);
            let ghost before = exchange@;
            assert(rest.skip(1) == replies@.skip(i + 1));
            match exchange.request() {
                Some(action) => {
                    performed.push(action);
                    proof {
                        let tail = before.next(rest[0]).log(rest.skip(1));
                        assert(before.log(rest) =~= seq![(action, rest[0])] + tail);
                        assert(requests(before.log(rest)) =~= seq![action] + requests(tail));
                    }
                },
                None => {
                    assert(before.log(rest) =~= before.next(rest[0]).log(rest.skip(1)));
                },
            }
            exchange = exchange.advance(&replies[i]);
            i = i + 1;
        }
        (exchange, performed)
    }

    /// Ends a finished exchange: its result, and the session if it left one.
    /// An exchange that has not finished is handed back unchanged.
    pub fn finish(self) -> (done: Result<Completion, Exchange>)
        ensures
            match done {
                Ok(completion) => {
                    &&& self@.phase == Phase::Finished(completion.result)
                    &&& completion.session is Some <==> self@.yields_session()
                    &&& completion.session matches Some(session) ==> session@ == self@.claims
                        && session.wf()
                },
                Err(exchange) => !self@.is_finished() && exchange@ == self@,
            },
    {
        proof {
            use_type_invariant(&self);
        }
        match self.phase {
            Phase::Finished(result) => {
                let keeps = match self.operation {
                    Operation::Open => result.is_ok(),
                    Operation::Reset => false,
                    Operation::Close => false,
                    _ => true,
                };
                let session = if keeps {
                    Some(MV7Device { was_kernel_attached: self.claims })
                } else {
                    None
                };
                Ok(Completion { session, result })
            },
            _ => Err(self),
        }
    }

    /// This exchange, waiting on another request.
    fn at(self, phase: Phase) -> (next: Exchange)
        requires
            self@.at(phase).wf(),
        ensures
            next@ == self@.at(phase),
    {
        Exchange {
            operation: self.operation,
            phase,
            claims: self.claims,
            muted: self.muted,
            verdict: self.verdict,
        }
    }

    /// This exchange, finished with `result`.
    fn finished(self, result: Result<Answer, Mv7Error>) -> (next: Exchange)
        requires
            self@.finished(result).wf(),
        ensures
            next@ == self@.finished(result),
    {
        self.at(Phase::Finished(result))
    }

    /// Begins or continues releasing the claimed interfaces.
    fn release(self, verdict: Option<Mv7Error>) -> (next: Exchange)
        requires
            self@.release(verdict).wf(),
        ensures
            next@ == self@.release(verdict),
    {
        let phase = if self.claims.len() == 0 {
            match verdict {
                Some(error) => Phase::Finished(Err(error)),
                None => Phase::Finished(Ok(Answer::Done)),
            }
        } else {
            Phase::Release
        };
        Exchange {
            operation: self.operation,
            phase,
            claims: self.claims,
            muted: self.muted,
            verdict,
        }
    }

    /// The operation fails with `error`.
    fn fail(self, error: Mv7Error) -> (next: Exchange)
        requires
            self@.fail(error).wf(),
        ensures
            next@ == self@.fail(error),
    {
        match self.operation {
            Operation::Open | Operation::Reset | Operation::Close => self.release(Some(error)),
            _ => self.finished(Err(error)),
        }
    }

    /// The stale input is gone.
    fn drained(self) -> (next: Exchange)
        requires
            self@.drained().wf(),
        ensures
            next@ == self@.drained(),
    {
        match self.operation {
            Operation::Open => self.finished(Ok(Answer::Done)),
            _ => self.at(Phase::WriteCommand),
        }
    }

    /// The next interface was claimed: it goes on record, and its default
    /// alternate setting is selected next.
    fn claimed(self, kernel_attached: bool) -> (next: Exchange)
        requires
            self@.wf(),
            self@.phase == (Phase::ClaimInterface { kernel_attached }),
            self@.next(Reply::Done).wf(),
        ensures
            next@ == self@.next(Reply::Done),
    {
        let interface = interface_at(self.claims.len());
        let mut claims = self.claims;
        claims.push(Claim { interface, kernel_attached });
        Exchange {
            operation: self.operation,
            phase: Phase::SetAlternateSetting,
            claims,
            muted: self.muted,
            verdict: self.verdict,
        }
    }

    /// A status query has read the mute state and turns to the position.
    fn heard(self, muted: bool) -> (next: Exchange)
        requires
            (ExchangeState { muted, ..self@.at(Phase::Drain { reads: 0 }) }).wf(),
        ensures
            next@ == (ExchangeState { muted, ..self@.at(Phase::Drain { reads: 0 }) }),
    {
        Exchange {
            operation: self.operation,
            phase: Phase::Drain { reads: 0 },
            claims: self.claims,
            muted,
            verdict: self.verdict,
        }
    }

    /// The firmware answered the command with the frame in `reply`.
    fn reported(self, reply: &Reply, frame: &[u8]) -> (next: Exchange)
        requires
            self@.phase is ReadReport,
            *reply matches Reply::Data(data) && data@ == frame@,
            self@.next(*reply).wf(),
        ensures
            next@ == self@.next(*reply),
    {
        match self.operation {
            Operation::SetMicPosition(_) => self.finished(Ok(Answer::Done)),
            Operation::Status => match parse_mode_report(frame) {
                Ok(position) => {
                    let muted = self.muted;
                    self.finished(Ok(Answer::Status { muted, position }))
                },
                Err(fault) => self.fail(Mv7Error::ProtocolError(fault)),
            },
            _ => match parse_mode_report(frame) {
                Ok(position) => self.finished(Ok(Answer::Position(position))),
                Err(fault) => self.fail(Mv7Error::ProtocolError(fault)),
            },
        }
    }

    /// The release of the interface claimed last was attempted: it leaves the
    /// record, and goes back to its kernel driver if it had one.
    fn released(self) -> (next: Exchange)
        requires
            self@.wf(),
            self@.phase == Phase::Release,
            self@.next(Reply::Done).wf(),
        ensures
            forall|reply: Reply| next@ == #[trigger] self@.next(reply),
    {
        let operation = self.operation;
        let muted = self.muted;
        let verdict = self.verdict;
        let mut claims = self.claims;
        let released = claims.pop().unwrap();
        let phase = if released.kernel_attached {
            Phase::Reattach { interface: released.interface }
        } else if claims.len() > 0 {
            Phase::Release
        } else {
            match verdict {
                Some(error) => Phase::Finished(Err(error)),
                None => Phase::Finished(Ok(Answer::Done)),
            }
        };
        Exchange { operation, phase, claims, muted, verdict }
    }
}

} // verus!
