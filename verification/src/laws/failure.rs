//! The first failure decides, and every exchange ends.

use vstd::prelude::*;
use crate::error::Mv7Error;
use crate::laws::log::finished_stays;
use crate::machine::{next_is_wf, ExchangeState, Phase};
use crate::transport::{Action, Reply};
use crate::usb::{interfaces, DEFAULT_ALT_SETTING, DRAIN_READS};

verus! {

/// An error that is waiting for the release to end is the error the exchange
/// ends with: nothing that happens during the release replaces it.
pub proof fn verdict_sticks(state: ExchangeState, replies: Seq<Reply>)
    requires
        state.wf(),
        state.verdict is Some,
    ensures
        state.run(replies).verdict == state.verdict,
        state.run(replies).is_finished() ==> state.run(replies).phase == Phase::Finished(
            Err(state.verdict.unwrap()),
        ),
    decreases replies.len(),
{
    if replies.len() > 0 {
        next_is_wf(state, replies[0]);
        verdict_sticks(state.next(replies[0]), replies.skip(1));
    }
}

/// The first failure decides: an operation that a reply makes fail ends with
/// the error of that failure. Nothing is tried again, and nothing that happens
/// while an open or a reset gives its interfaces back changes the error.
pub proof fn first_failure_is_the_result(state: ExchangeState, replies: Seq<Reply>)
    requires
        state.wf(),
        replies.len() > 0,
        state.failure(replies[0]) is Some,
        state.run(replies).is_finished(),
    ensures
        state.run(replies).phase == Phase::Finished(Err(state.failure(replies[0]).unwrap())),
{
    let next = state.next(replies[0]);
    next_is_wf(state, replies[0]);
    if next.is_finished() {
        finished_stays(next, replies.skip(1));
    } else {
        verdict_sticks(next, replies.skip(1));
    }
}

/// The interface that a failed step of the opening sequence names is the
/// interface of the request that failed.
pub proof fn acquisition_error_names_the_request(state: ExchangeState, reply: Reply)
    requires
        state.failure(reply) is Some,
    ensures
        state.phase is QueryDriver ==> state.request() == Some(
            Action::QueryKernelDriver { interface: state.interface_in_hand() },
        ),
        state.phase is DetachDriver ==> state.request() == Some(
            Action::DetachKernelDriver { interface: state.interface_in_hand() },
        ),
        state.phase is ClaimInterface ==> state.request() == Some(
            Action::ClaimInterface { interface: state.interface_in_hand() },
        ),
        state.phase is SetAlternateSetting ==> state.request() == Some(
            Action::SetAlternateSetting {
                interface: state.interface_in_hand(),
                setting: DEFAULT_ALT_SETTING,
            },
        ),
        state.phase is QueryDriver || state.phase is DetachDriver || state.phase is ClaimInterface
            || state.phase is SetAlternateSetting ==> state.failure(reply) == Some(
            Mv7Error::ResourceAcquisitionError {
                interface: state.interface_in_hand(),
                fault: reply.fault(),
            },
        ),
{
}

/// The most requests an exchange in `state` still performs.
pub open spec fn remaining(state: ExchangeState) -> nat {
    let unclaimed = (interfaces().len() - state.claims.len()) as nat;
    let release = 2 * state.claims.len();
    let after_claims = (1 + DRAIN_READS + 2 * interfaces().len()) as nat;
    match state.phase {
        Phase::FindDevice => 3 + 4 * unclaimed + after_claims,
        Phase::ReadConfiguration => 2 + 4 * unclaimed + after_claims,
        Phase::WriteConfiguration => 1 + 4 * unclaimed + after_claims,
        Phase::QueryDriver => 4 * unclaimed + after_claims,
        Phase::DetachDriver => (4 * unclaimed - 1 + after_claims) as nat,
        Phase::ClaimInterface { kernel_attached } => (4 * unclaimed - 2 + after_claims) as nat,
        Phase::SetAlternateSetting => 1 + 4 * unclaimed + after_claims,
        Phase::Settle => after_claims,
        Phase::Drain { reads } => (DRAIN_READS - reads + 2 * interfaces().len()) as nat,
        Phase::ReadMute => (3 + DRAIN_READS + 2 * interfaces().len()) as nat,
        Phase::WriteMute => 1,
        Phase::WriteCommand => 2,
        Phase::ReadReport => 1,
        Phase::ResetDevice => 1 + release,
        Phase::Release => release,
        Phase::Reattach { interface } => 1 + release,
        Phase::Finished(_) => 0,
    }
}

/// Every reply brings an exchange nearer to its result.
pub proof fn next_is_nearer(state: ExchangeState, reply: Reply)
    requires
        state.wf(),
        !state.is_finished(),
    ensures
        remaining(state.next(reply)) < remaining(state),
{
}

/// Every exchange comes to its result, whatever the device answers: no
/// failure keeps an operation from ending, and none keeps a session from
/// closing. An exchange in `state` has finished once it got as many replies as
/// [`remaining`] allows it.
pub proof fn exchange_ends(state: ExchangeState, replies: Seq<Reply>)
    requires
        state.wf(),
        replies.len() >= remaining(state),
    ensures
        state.run(replies).is_finished(),
    decreases replies.len(),
{
    if state.is_finished() {
        finished_stays(state, replies);
    } else {
        next_is_wf(state, replies[0]);
        next_is_nearer(state, replies[0]);
        exchange_ends(state.next(replies[0]), replies.skip(1));
    }
}

} // verus!
