//! What was taken from a kernel driver goes back to it.

use vstd::prelude::*;
use crate::laws::failure::verdict_sticks;
use crate::laws::log::{count, count_step, driver_found, finished_stays, reattach, run_is_wf};
use crate::machine::{
    claims_complete, claims_in_order, next_is_wf, recorded, start_is_wf, Claim, ExchangeState,
    Operation, Phase,
};
use crate::transport::Reply;

verus! {

/// How many entries of the bookkeeping say that `interface` was bound to a
/// kernel driver.
pub open spec fn flagged(claims: Seq<Claim>, interface: u8) -> nat
    decreases claims.len(),
{
    if claims.len() == 0 {
        0
    } else {
        flagged(claims.drop_last(), interface) + (if claims.last() == (Claim {
            interface,
            kernel_attached: true,
        }) {
            1nat
        } else {
            0nat
        })
    }
}

/// The bookkeeping of a session names each interface once, so `interface` is
/// flagged once if it is on record as bound to a kernel driver, and not at all
/// otherwise.
pub proof fn flagged_is_on_record(claims: Seq<Claim>, interface: u8)
    requires
        claims_in_order(claims),
    ensures
        flagged(claims, interface) == (if recorded(claims, interface) == Some(true) {
            1nat
        } else {
            0nat
        }),
{
    reveal_with_fuel(flagged, 3);
    reveal_with_fuel(recorded, 3);
    if claims.len() == 2 {
        assert(claims.skip(1)[0] == claims[1]);
        assert(claims.drop_last().last() == claims[0]);
    }
}

/// The reattachments that an exchange in `state` still owes to `interface`.
spec fn owed(state: ExchangeState, interface: u8) -> nat {
    flagged(state.claims, interface) + (if state.phase == (Phase::Reattach { interface }) {
        1nat
    } else {
        0nat
    })
}

/// The kernel driver of `interface` that the opening sequence has found and
/// not yet put on record.
spec fn noted(state: ExchangeState, interface: u8) -> nat {
    if state.next_interface() == interface && (state.phase is DetachDriver || state.phase
        == (Phase::ClaimInterface { kernel_attached: true })) {
        1
    } else {
        0
    }
}

/// What is put on record is flagged if and only if it is bound to a kernel
/// driver on the interface in question.
proof fn flagged_push(claims: Seq<Claim>, claim: Claim, interface: u8)
    ensures
        flagged(claims.push(claim), interface) == flagged(claims, interface) + (if claim == (Claim {
            interface,
            kernel_attached: true,
        }) {
            1nat
        } else {
            0nat
        }),
{
    assert(claims.push(claim).drop_last() =~= claims);
}

/// An exchange that releases the session's interfaces attempts to give back to
/// a kernel driver exactly those that are on record as taken from one.
proof fn release_pays_what_is_owed(state: ExchangeState, replies: Seq<Reply>, interface: u8)
    requires
        state.wf(),
        state.operation.ends_session() || state.verdict is Some,
        state.run(replies).is_finished(),
    ensures
        count(state.log(replies), reattach(interface)) == owed(state, interface),
    decreases replies.len(),
{
    if state.is_finished() {
        finished_stays(state, replies);
    } else {
        next_is_wf(state, replies[0]);
        count_step(state, replies, reattach(interface));
        release_pays_what_is_owed(state.next(replies[0]), replies.skip(1), interface);
    }
}

/// A reset or a close attempts to give `interface` back to a kernel driver
/// if the session has it on record as bound to one, and does not attempt it
/// otherwise.
pub proof fn close_reattaches_what_was_attached(
    operation: Operation,
    claims: Seq<Claim>,
    replies: Seq<Reply>,
    interface: u8,
)
    requires
        operation.ends_session(),
        claims_complete(claims),
        ExchangeState::start(operation, claims).run(replies).is_finished(),
    ensures
        count(ExchangeState::start(operation, claims).log(replies), reattach(interface)) == (
        if recorded(claims, interface) == Some(true) {
            1nat
        } else {
            0nat
        }),
{
    let start = ExchangeState::start(operation, claims);
    start_is_wf(operation, claims);
    release_pays_what_is_owed(start, replies, interface);
    flagged_is_on_record(claims, interface);
}

/// An open that succeeds has `interface` on record as bound to a kernel driver
/// if and only if its query found one.
proof fn open_records_what_it_found(state: ExchangeState, replies: Seq<Reply>, interface: u8)
    requires
        state.wf(),
        state.operation is Open,
        state.run(replies).phase matches Phase::Finished(Ok(_)),
    ensures
        count(state.log(replies), driver_found(interface)) + noted(state, interface) + flagged(
            state.claims,
            interface,
        ) == flagged(state.run(replies).claims, interface),
    decreases replies.len(),
{
    run_is_wf(state, replies);
    if state.verdict is Some {
        verdict_sticks(state, replies);
    }
    if replies.len() == 0 {
    } else if state.is_finished() {
        finished_stays(state, replies);
    } else {
        let next = state.next(replies[0]);
        next_is_wf(state, replies[0]);
        count_step(state, replies, driver_found(interface));
        open_records_what_it_found(next, replies.skip(1), interface);
        if next.verdict is Some {
            run_is_wf(next, replies.skip(1));
            verdict_sticks(next, replies.skip(1));
        }
        if state.phase is ClaimInterface {
            flagged_push(
                state.claims,
                Claim {
                    interface: state.next_interface(),
                    kernel_attached: state.phase->kernel_attached,
                },
                interface,
            );
        }
    }
}

/// A session has `interface` on record as bound to a kernel driver if and
/// only if the query of its open found one.
pub proof fn session_records_what_open_found(opening: Seq<Reply>, interface: u8)
    requires
        ExchangeState::start(Operation::Open, Seq::empty()).run(opening).phase matches Phase::Finished(
            Ok(_),
        ),
    ensures
        count(
            ExchangeState::start(Operation::Open, Seq::empty()).log(opening),
            driver_found(interface),
        ) == (if recorded(
            ExchangeState::start(Operation::Open, Seq::empty()).run(opening).claims,
            interface,
        ) == Some(true) {
            1nat
        } else {
            0nat
        }),
{
    let open = ExchangeState::start(Operation::Open, Seq::empty());
    start_is_wf(Operation::Open, Seq::empty());
    run_is_wf(open, opening);
    open_records_what_it_found(open, opening, interface);
    flagged_is_on_record(open.run(opening).claims, interface);
}

/// An open attempts no more reattachments than its queries found drivers.
proof fn open_owes_no_more_than_found(state: ExchangeState, replies: Seq<Reply>, interface: u8)
    requires
        state.wf(),
        state.operation is Open,
    ensures
        count(state.log(replies), reattach(interface)) <= count(
            state.log(replies),
            driver_found(interface),
        ) + noted(state, interface) + owed(state, interface),
    decreases replies.len(),
{
    if replies.len() == 0 || state.is_finished() {
    } else {
        next_is_wf(state, replies[0]);
        count_step(state, replies, driver_found(interface));
        count_step(state, replies, reattach(interface));
        open_owes_no_more_than_found(state.next(replies[0]), replies.skip(1), interface);
        if state.phase is ClaimInterface {
            flagged_push(
                state.claims,
                Claim {
                    interface: state.next_interface(),
                    kernel_attached: state.phase->kernel_attached,
                },
                interface,
            );
        }
    }
}

/// An open, whether it succeeds or fails, never attempts to give an interface
/// back to a kernel driver that its query did not find there.
pub proof fn open_reattaches_only_what_it_found(replies: Seq<Reply>, interface: u8)
    ensures
        count(ExchangeState::start(Operation::Open, Seq::empty()).log(replies), reattach(interface))
            <= count(
            ExchangeState::start(Operation::Open, Seq::empty()).log(replies),
            driver_found(interface),
        ),
{
    let start = ExchangeState::start(Operation::Open, Seq::empty());
    start_is_wf(Operation::Open, Seq::empty());
    open_owes_no_more_than_found(start, replies, interface);
}

/// A session gives an interface back to a kernel driver when it ends if and
/// only if it took the interface from one when it opened.
///
/// Let a session be opened successfully and be ended by a reset or a close,
/// with any replies. Then the end attempts to reattach a kernel driver to
/// `interface` once if the open's query found a driver bound to it, and not at
/// all otherwise.
pub proof fn reattach_matches_open(
    opening: Seq<Reply>,
    ending: Operation,
    closing: Seq<Reply>,
    interface: u8,
)
    requires
        ExchangeState::start(Operation::Open, Seq::empty()).run(opening).phase matches Phase::Finished(
            Ok(_),
        ),
        ending.ends_session(),
        ExchangeState::start(
            ending,
            ExchangeState::start(Operation::Open, Seq::empty()).run(opening).claims,
        ).run(closing).is_finished(),
    ensures
        ({
            let open = ExchangeState::start(Operation::Open, Seq::empty());
            let end = ExchangeState::start(ending, open.run(opening).claims);
            let found = count(open.log(opening), driver_found(interface));
            &&& count(end.log(closing), reattach(interface)) == found
            &&& found <= 1
        }),
{
    let open = ExchangeState::start(Operation::Open, Seq::empty());
    let session = open.run(opening).claims;
    start_is_wf(Operation::Open, Seq::empty());
    run_is_wf(open, opening);
    session_records_what_open_found(opening, interface);
    close_reattaches_what_was_attached(ending, session, closing, interface);
}

} // verus!
