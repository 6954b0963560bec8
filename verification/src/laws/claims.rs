//! What is claimed is released.

use vstd::prelude::*;
use crate::laws::failure::verdict_sticks;
use crate::laws::log::{
    count, count_none, count_step, finished_stays, granted_claim, granted_claim_of, log_step,
    moves_interface, release, release_of, run_is_wf,
};
use crate::machine::{
    claims_complete, next_is_wf, start_is_wf, Claim, ExchangeState, Operation, Phase,
};
use crate::transport::Reply;
use crate::usb::interfaces;

verus! {

/// How many entries of the bookkeeping are about `interface`.
pub open spec fn held(claims: Seq<Claim>, interface: u8) -> nat
    decreases claims.len(),
{
    if claims.len() == 0 {
        0
    } else {
        held(claims.drop_last(), interface) + (if claims.last().interface == interface {
            1nat
        } else {
            0nat
        })
    }
}

/// The bookkeeping of a session holds each interface of the session once, and
/// no other.
pub proof fn session_holds_each_interface_once(claims: Seq<Claim>, interface: u8)
    requires
        claims_complete(claims),
    ensures
        held(claims, interface) == (if interfaces().contains(interface) {
            1nat
        } else {
            0nat
        }),
{
    reveal_with_fuel(held, 3);
}

/// The interfaces an exchange holds at any point are those it held at the
/// start, and those whose claims were granted since, less those whose release
/// was attempted since.
pub proof fn claims_ledger(state: ExchangeState, replies: Seq<Reply>)
    requires
        state.wf(),
    ensures
        state.run(replies).claims.len() + count(state.log(replies), release())
            == state.claims.len() + count(state.log(replies), granted_claim()),
    decreases replies.len(),
{
    if replies.len() == 0 {
    } else if state.is_finished() {
        finished_stays(state, replies);
    } else {
        next_is_wf(state, replies[0]);
        count_step(state, replies, release());
        count_step(state, replies, granted_claim());
        claims_ledger(state.next(replies[0]), replies.skip(1));
    }
}

/// What [`claims_ledger`] says of all interfaces together holds of each one:
/// an exchange holds `interface` if it held it at the start or its claim was
/// granted since, unless its release was attempted since.
pub proof fn interface_ledger(state: ExchangeState, replies: Seq<Reply>, interface: u8)
    requires
        state.wf(),
    ensures
        held(state.run(replies).claims, interface) + count(state.log(replies), release_of(interface))
            == held(state.claims, interface) + count(
            state.log(replies),
            granted_claim_of(interface),
        ),
    decreases replies.len(),
{
    if replies.len() == 0 {
    } else if state.is_finished() {
        finished_stays(state, replies);
    } else {
        next_is_wf(state, replies[0]);
        count_step(state, replies, release_of(interface));
        count_step(state, replies, granted_claim_of(interface));
        interface_ledger(state.next(replies[0]), replies.skip(1), interface);
        if state.phase is ClaimInterface {
            let claim = Claim {
                interface: state.next_interface(),
                kernel_attached: state.phase->kernel_attached,
            };
            assert(state.claims.push(claim).drop_last() =~= state.claims);
        }
    }
}

/// An open that succeeds gives nothing back: it attempts no release and no
/// reattachment.
pub proof fn clean_open_gives_nothing_back(state: ExchangeState, replies: Seq<Reply>)
    requires
        state.wf(),
        state.operation is Open,
        state.run(replies).phase matches Phase::Finished(Ok(_)),
    ensures
        forall|i: int|
            0 <= i < state.log(replies).len() ==> !((#[trigger] state.log(replies)[i]).0
                is ReleaseInterface) && !(state.log(replies)[i].0 is AttachKernelDriver),
    decreases replies.len(),
{
    run_is_wf(state, replies);
    if state.verdict is Some {
        verdict_sticks(state, replies);
    }
    if replies.len() == 0 || state.is_finished() {
    } else {
        next_is_wf(state, replies[0]);
        log_step(state, replies);
        clean_open_gives_nothing_back(state.next(replies[0]), replies.skip(1));
    }
}

/// Only an open takes interfaces over: no other operation detaches a kernel
/// driver or claims an interface.
pub proof fn only_open_acquires(state: ExchangeState, replies: Seq<Reply>)
    requires
        state.wf(),
        !(state.operation is Open),
    ensures
        forall|i: int|
            0 <= i < state.log(replies).len() ==> !((#[trigger] state.log(replies)[i]).0
                is ClaimInterface) && !(state.log(replies)[i].0 is DetachKernelDriver),
    decreases replies.len(),
{
    if replies.len() == 0 || state.is_finished() {
    } else {
        next_is_wf(state, replies[0]);
        log_step(state, replies);
        only_open_acquires(state.next(replies[0]), replies.skip(1));
    }
}

/// An operation within a session leaves the interfaces alone: it detaches and
/// claims nothing, releases and reattaches nothing, and hands the session's
/// bookkeeping on as it was.
pub proof fn session_untouched(state: ExchangeState, replies: Seq<Reply>)
    requires
        state.wf(),
        state.operation.within_session(),
    ensures
        state.run(replies).claims == state.claims,
        forall|i: int|
            0 <= i < state.log(replies).len() ==> !moves_interface(
                (#[trigger] state.log(replies)[i]).0,
            ),
    decreases replies.len(),
{
    if replies.len() == 0 {
    } else if state.is_finished() {
        finished_stays(state, replies);
    } else {
        next_is_wf(state, replies[0]);
        log_step(state, replies);
        session_untouched(state.next(replies[0]), replies.skip(1));
    }
}

/// Whatever an exchange claims it releases, and it releases nothing else.
///
/// Take any operation from its start to its result, with any replies.
/// - An open that succeeds was granted a claim on every interface of the
///   session and released none.
/// - An open that fails attempted one release for each claim it was granted.
/// - An operation within a session claimed and released nothing, and hands the
///   session back as it got it.
/// - A reset or a close attempted one release for each interface of the
///   session, and claimed nothing.
pub proof fn releases_match_claims(operation: Operation, claims: Seq<Claim>, replies: Seq<Reply>)
    requires
        if operation is Open {
            claims.len() == 0
        } else {
            claims_complete(claims)
        },
        ExchangeState::start(operation, claims).run(replies).is_finished(),
    ensures
        ({
            let start = ExchangeState::start(operation, claims);
            let end = start.run(replies);
            let granted = count(start.log(replies), granted_claim());
            let released = count(start.log(replies), release());
            &&& (operation is Open && end.phase matches Phase::Finished(Ok(_))) ==> {
                &&& granted == interfaces().len()
                &&& released == 0
                &&& claims_complete(end.claims)
            }
            &&& (operation is Open && end.phase matches Phase::Finished(Err(_))) ==> {
                &&& released == granted
                &&& end.claims.len() == 0
            }
            &&& operation.within_session() ==> {
                &&& granted == 0
                &&& released == 0
                &&& end.claims == claims
            }
            &&& operation.ends_session() ==> {
                &&& granted == 0
                &&& released == claims.len()
                &&& end.claims.len() == 0
            }
        }),
{
    let start = ExchangeState::start(operation, claims);
    start_is_wf(operation, claims);
    run_is_wf(start, replies);
    claims_ledger(start, replies);
    if operation is Open {
        if start.run(replies).phase matches Phase::Finished(Ok(_)) {
            clean_open_gives_nothing_back(start, replies);
            count_none(start.log(replies), release());
        }
    } else {
        only_open_acquires(start, replies);
        count_none(start.log(replies), granted_claim());
        if operation.within_session() {
            session_untouched(start, replies);
            count_none(start.log(replies), release());
        }
    }
}

/// Each interface that an exchange claims it releases once, and it releases
/// no other.
///
/// This is [`releases_match_claims`] for one interface at a time. Take any
/// operation from its start to its result, with any replies.
/// - An open that succeeds was granted one claim on `interface` if it is an
///   interface of the session, none otherwise, and did not release it.
/// - An open that fails attempted to release `interface` as often as its claim
///   was granted.
/// - An operation within a session neither claimed nor released it.
/// - A reset or a close attempted to release `interface` once if it is an
///   interface of the session, and not at all otherwise.
pub proof fn each_interface_is_released_once(
    operation: Operation,
    claims: Seq<Claim>,
    replies: Seq<Reply>,
    interface: u8,
)
    requires
        if operation is Open {
            claims.len() == 0
        } else {
            claims_complete(claims)
        },
        ExchangeState::start(operation, claims).run(replies).is_finished(),
    ensures
        ({
            let start = ExchangeState::start(operation, claims);
            let end = start.run(replies);
            let granted = count(start.log(replies), granted_claim_of(interface));
            let released = count(start.log(replies), release_of(interface));
            let once = if interfaces().contains(interface) {
                1nat
            } else {
                0nat
            };
            &&& (operation is Open && end.phase matches Phase::Finished(Ok(_))) ==> granted == once
                && released == 0
            &&& (operation is Open && end.phase matches Phase::Finished(Err(_))) ==> released
                == granted
            &&& operation.within_session() ==> granted == 0 && released == 0
            &&& operation.ends_session() ==> granted == 0 && released == once
        }),
{
    let start = ExchangeState::start(operation, claims);
    let end = start.run(replies);
    start_is_wf(operation, claims);
    run_is_wf(start, replies);
    interface_ledger(start, replies, interface);
    if operation is Open {
        if end.phase matches Phase::Finished(Ok(_)) {
            clean_open_gives_nothing_back(start, replies);
            count_none(start.log(replies), release_of(interface));
            session_holds_each_interface_once(end.claims, interface);
        }
    } else {
        only_open_acquires(start, replies);
        count_none(start.log(replies), granted_claim_of(interface));
        session_holds_each_interface_once(claims, interface);
        if operation.within_session() {
            session_untouched(start, replies);
            count_none(start.log(replies), release_of(interface));
        }
    }
}

} // verus!
