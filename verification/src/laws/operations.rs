//! Single operations: the order of a status query, the reads of a drain, and
//! reading back what was set.

use vstd::prelude::*;
use crate::error::{Mv7Error, TransportFault};
use crate::frame::{
    decimal, is_digit, mode_report, report_of_code_reads_back, report_prefix, Command,
};
use crate::laws::log::{finished_stays, log_step};
use crate::machine::{
    claims_complete, next_is_wf, requests, Answer, Claim, Entry, ExchangeState, Operation, Phase,
};
use crate::mute::{mute_payload, mute_reading, mute_setup};
use crate::position::MicPosition;
use crate::transport::{Action, Reply};
use crate::usb::{
    Direction, CONTROL_TIMEOUT_MS, DRAIN_READS, FRAME_LEN, HID_EP_IN, HID_EP_OUT, READ_TIMEOUT_MS,
    WRITE_TIMEOUT_MS,
};

verus! {

/// A status query asks for the mute state first, and when that query fails it
/// asks for nothing more: it ends at once with the fault of the failed query,
/// and the position is never queried.
pub proof fn status_stops_at_failed_mute_query(claims: Seq<Claim>, replies: Seq<Reply>)
    requires
        claims_complete(claims),
        replies.len() > 0,
        !(replies[0] is Data),
    ensures
        ({
            let start = ExchangeState::start(Operation::Status, claims);
            let mute_query = Action::ControlRead {
                setup: mute_setup(Direction::In),
                length: 1,
                timeout_ms: CONTROL_TIMEOUT_MS,
            };
            &&& start.log(replies) == seq![(mute_query, replies[0])]
            &&& start.run(replies).phase == Phase::Finished(
                Err(Mv7Error::TransportError(replies[0].fault())),
            )
        }),
{
    let start = ExchangeState::start(Operation::Status, claims);
    let next = start.next(replies[0]);
    finished_stays(next, replies.skip(1));
}

/// A status query reads the mute state, then the position, and reports both;
/// it fails if the position cannot be read.
///
/// Let the mute query return data, the drain find nothing stale, the command
/// be written, and a frame come back. Then the requests were the mute query,
/// one drain read, the write of the query command, and the read of the
/// report, in this order; and the result is the mute state of the first reply
/// together with the position of the last, or the protocol error of the
/// last.
pub proof fn status_reports_both(claims: Seq<Claim>, replies: Seq<Reply>)
    requires
        claims_complete(claims),
        replies.len() == 4,
        replies[0] is Data,
        replies[1] == Reply::Failed(TransportFault::Timeout),
        replies[2] is Written,
        replies[3] is Data,
    ensures
        ({
            let start = ExchangeState::start(Operation::Status, claims);
            &&& requests(start.log(replies)) == seq![
                Action::ControlRead {
                    setup: mute_setup(Direction::In),
                    length: 1,
                    timeout_ms: CONTROL_TIMEOUT_MS,
                },
                ExchangeState::drain_read(),
                Action::InterruptWrite {
                    endpoint: HID_EP_OUT,
                    command: Command::QueryMode,
                    timeout_ms: WRITE_TIMEOUT_MS,
                },
                Action::InterruptRead {
                    endpoint: HID_EP_IN,
                    length: FRAME_LEN,
                    timeout_ms: READ_TIMEOUT_MS,
                },
            ]
            &&& start.run(replies).phase == (match mode_report(replies[3]->Data_0@) {
                Ok(position) => Phase::Finished(
                    Ok(Answer::Status { muted: mute_reading(replies[0]->Data_0@), position }),
                ),
                Err(fault) => Phase::Finished(Err(Mv7Error::ProtocolError(fault))),
            })
        }),
{
    let start = ExchangeState::start(Operation::Status, claims);
    let heard = start.next(replies[0]);
    let drained = heard.next(replies[1]);
    let written = drained.next(replies[2]);
    let end = written.next(replies[3]);
    let after = |n: int| replies.skip(n);
    assert(after(1)[0] == replies[1] && after(1).skip(1) =~= after(2));
    assert(after(2)[0] == replies[2] && after(2).skip(1) =~= after(3));
    assert(after(3)[0] == replies[3] && after(3).skip(1) =~= after(4));
    assert(end.run(after(4)) == end);
    assert(written.run(after(3)) == end);
    assert(drained.run(after(2)) == end);
    assert(heard.run(after(1)) == end);
    assert(end.log(after(4)) =~= Seq::<Entry>::empty());
    assert(written.log(after(3)) =~= seq![(written.request().unwrap(), replies[3])]);
    assert(drained.log(after(2)) =~= seq![
        (drained.request().unwrap(), replies[2]),
        (written.request().unwrap(), replies[3]),
    ]);
    assert(heard.log(after(1)) =~= seq![
        (heard.request().unwrap(), replies[1]),
        (drained.request().unwrap(), replies[2]),
        (written.request().unwrap(), replies[3]),
    ]);
}

/// A drain reads until a read times out, and then has succeeded.
///
/// Let a drain begin, and let the first `replies.len() - 1` reads, fewer than
/// the most a drain performs, each return a stale frame, and the read after
/// them time out. Then the drain performs exactly those reads, each with the
/// drain's short timeout, and the operation goes on as after a successful
/// drain.
pub proof fn drain_stops_at_timeout(state: ExchangeState, replies: Seq<Reply>)
    requires
        state.wf(),
        state.phase matches Phase::Drain { reads } && reads + replies.len() <= DRAIN_READS,
        replies.len() > 0,
        forall|i: int| 0 <= i < replies.len() - 1 ==> (#[trigger] replies[i]) is Data,
        replies.last() == Reply::Failed(TransportFault::Timeout),
    ensures
        state.run(replies) == state.drained(),
        state.log(replies).len() == replies.len(),
        forall|i: int|
            0 <= i < replies.len() ==> #[trigger] state.log(replies)[i] == (
                ExchangeState::drain_read(),
                replies[i],
            ),
    decreases replies.len(),
{
    let next = state.next(replies[0]);
    let rest = replies.skip(1);
    log_step(state, replies);
    if replies.len() > 1 {
        next_is_wf(state, replies[0]);
        assert(rest.last() == replies.last());
        assert forall|i: int| 0 <= i < rest.len() - 1 implies (#[trigger] rest[i]) is Data by {
            assert(rest[i] == replies[i + 1]);
        }
        drain_stops_at_timeout(next, rest);
        assert(forall|i: int| 1 <= i < replies.len() ==> rest[i - 1] == #[trigger] replies[i]);
    }
}

/// A drain gives up after the most reads it performs.
///
/// Let a drain begin, and let every read return a stale frame. Then the drain
/// performs exactly as many reads as a drain may, and the operation goes on as
/// after a successful drain.
pub proof fn drain_stops_at_limit(state: ExchangeState, replies: Seq<Reply>)
    requires
        state.wf(),
        state.phase matches Phase::Drain { reads } && reads + replies.len() == DRAIN_READS,
        replies.len() > 0,
        forall|i: int| 0 <= i < replies.len() ==> (#[trigger] replies[i]) is Data,
    ensures
        state.run(replies) == state.drained(),
        state.log(replies).len() == replies.len(),
        forall|i: int|
            0 <= i < replies.len() ==> #[trigger] state.log(replies)[i] == (
                ExchangeState::drain_read(),
                replies[i],
            ),
    decreases replies.len(),
{
    let next = state.next(replies[0]);
    let rest = replies.skip(1);
    log_step(state, replies);
    if replies.len() > 1 {
        next_is_wf(state, replies[0]);
        assert forall|i: int| 0 <= i < rest.len() implies (#[trigger] rest[i]) is Data by {
            assert(rest[i] == replies[i + 1]);
        }
        drain_stops_at_limit(next, rest);
        assert(forall|i: int| 1 <= i < replies.len() ==> rest[i - 1] == #[trigger] replies[i]);
    }
}

/// What was set is what is read, if the device keeps what it was given.
///
/// Setting the mute state writes one byte; a mute query answered with that
/// byte reports the state that was set.
pub proof fn mute_round_trip(claims: Seq<Claim>, mute: bool, reply: Reply)
    requires
        claims_complete(claims),
        reply matches Reply::Data(data) && data@ == seq![mute_payload(mute)],
    ensures
        ExchangeState::start(Operation::SetMute(mute), claims).request() == Some(
            Action::ControlWrite {
                setup: mute_setup(Direction::Out),
                payload: mute_payload(mute),
                timeout_ms: CONTROL_TIMEOUT_MS,
            },
        ),
        ExchangeState::start(Operation::GetMute, claims).next(reply).phase == Phase::Finished(
            Ok(Answer::Mute(mute)),
        ),
{
}

/// What was set is what is read, if the device keeps what it was given.
///
/// Setting the position writes the command that names the position's mode
/// code; a query answered with a report of that code, followed by ASCII padding
/// that does not begin with a digit, reports the position that was set.
pub proof fn position_round_trip(
    set: ExchangeState,
    get: ExchangeState,
    position: MicPosition,
    reply: Reply,
    padding: Seq<u8>,
)
    requires
        set.operation == Operation::SetMicPosition(position),
        set.phase is WriteCommand,
        get.operation is GetMicPosition,
        get.phase is ReadReport,
        forall|i: int| 0 <= i < padding.len() ==> #[trigger] padding[i] < 0x80,
        padding.len() == 0 || !is_digit(padding[0]),
        reply matches Reply::Data(frame) && frame@ == report_prefix() + decimal(
            position.spec_code() as nat,
        ) + padding,
    ensures
        set.request() == Some(
            Action::InterruptWrite {
                endpoint: HID_EP_OUT,
                command: Command::SetMode(position),
                timeout_ms: WRITE_TIMEOUT_MS,
            },
        ),
        get.next(reply).phase == Phase::Finished(Ok(Answer::Position(position))),
{
    report_of_code_reads_back(position.spec_code(), padding);
}

} // verus!
