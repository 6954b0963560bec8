//! The whole life of a session: its open, the operations on it, and its end.

use vstd::prelude::*;
use crate::laws::claims::{
    clean_open_gives_nothing_back, each_interface_is_released_once, only_open_acquires,
    releases_match_claims, session_untouched,
};
use crate::laws::log::{
    count, count_none, driver_found, granted_claim, granted_claim_of, reattach, release,
    release_of, run_is_wf,
};
use crate::laws::reattach::reattach_matches_open;
use crate::machine::{claims_complete, start_is_wf, Claim, Entry, ExchangeState, Operation, Phase};
use crate::transport::Reply;
use crate::usb::interfaces;

verus! {

/// One operation within a session, with the replies it got.
pub struct Visit {
    pub operation: Operation,
    pub replies: Seq<Reply>,
}

/// The exchange of the first of `visits`, begun on a session with the
/// bookkeeping `claims`.
pub open spec fn first_visit(claims: Seq<Claim>, visits: Seq<Visit>) -> ExchangeState
    recommends
        visits.len() > 0,
{
    ExchangeState::start(visits[0].operation, claims)
}

/// Whether each of `visits`, begun on the session that the one before it
/// handed back, is an operation within a session that came to its result.
pub open spec fn visits_complete(claims: Seq<Claim>, visits: Seq<Visit>) -> bool
    decreases visits.len(),
{
    visits.len() == 0 || {
        let visit = first_visit(claims, visits);
        &&& visits[0].operation.within_session()
        &&& visit.run(visits[0].replies).is_finished()
        &&& visits_complete(visit.run(visits[0].replies).claims, visits.skip(1))
    }
}

/// The bookkeeping of the session that the last of `visits` hands back.
pub open spec fn visits_leave(claims: Seq<Claim>, visits: Seq<Visit>) -> Seq<Claim>
    decreases visits.len(),
{
    if visits.len() == 0 {
        claims
    } else {
        let visit = first_visit(claims, visits);
        visits_leave(visit.run(visits[0].replies).claims, visits.skip(1))
    }
}

/// How many entries of the logs of `visits` are of the kind that `pick` picks.
pub open spec fn visits_count(claims: Seq<Claim>, visits: Seq<Visit>, pick: spec_fn(Entry) -> bool) -> nat
    decreases visits.len(),
{
    if visits.len() == 0 {
        0
    } else {
        let visit = first_visit(claims, visits);
        count(visit.log(visits[0].replies), pick) + visits_count(
            visit.run(visits[0].replies).claims,
            visits.skip(1),
            pick,
        )
    }
}

/// Operations within a session, however many and however they end, claim and
/// release nothing, attempt no reattachment, and hand the session on as the
/// first of them got it.
pub proof fn visits_leave_session_untouched(claims: Seq<Claim>, visits: Seq<Visit>, interface: u8)
    requires
        claims_complete(claims),
        visits_complete(claims, visits),
    ensures
        visits_leave(claims, visits) == claims,
        visits_count(claims, visits, granted_claim()) == 0,
        visits_count(claims, visits, release()) == 0,
        visits_count(claims, visits, granted_claim_of(interface)) == 0,
        visits_count(claims, visits, release_of(interface)) == 0,
        visits_count(claims, visits, reattach(interface)) == 0,
    decreases visits.len(),
{
    if visits.len() > 0 {
        let visit = first_visit(claims, visits);
        let log = visit.log(visits[0].replies);
        start_is_wf(visits[0].operation, claims);
        session_untouched(visit, visits[0].replies);
        count_none(log, granted_claim());
        count_none(log, release());
        count_none(log, granted_claim_of(interface));
        count_none(log, release_of(interface));
        count_none(log, reattach(interface));
        visits_leave_session_untouched(claims, visits.skip(1), interface);
    }
}

/// Over the life of a session, every interface that was claimed is released
/// once, and an interface goes back to a kernel driver if and only if it was
/// taken from one.
///
/// Let a session be opened successfully, let any operations run on it one
/// after another, each to its result, and let a reset or a close end it; the
/// device may answer each request in any way. Then, counted over all these
/// exchanges together:
/// - the attempts to release an interface are as many as the claims that were
///   granted, one for each interface of the session;
/// - the attempts to release `interface` are as many as the claims of it that
///   were granted: one if it is an interface of the session, none otherwise;
/// - the attempts to reattach a kernel driver to `interface` are as many as the
///   queries that found a driver bound to it, which is one or none.
pub proof fn session_lifetime(
    opening: Seq<Reply>,
    visits: Seq<Visit>,
    ending: Operation,
    closing: Seq<Reply>,
    interface: u8,
)
    requires
        ExchangeState::start(Operation::Open, Seq::empty()).run(opening).phase matches Phase::Finished(
            Ok(_),
        ),
        visits_complete(ExchangeState::start(Operation::Open, Seq::empty()).run(opening).claims, visits),
        ending.ends_session(),
        ExchangeState::start(
            ending,
            visits_leave(
                ExchangeState::start(Operation::Open, Seq::empty()).run(opening).claims,
                visits,
            ),
        ).run(closing).is_finished(),
    ensures
        ({
            let open = ExchangeState::start(Operation::Open, Seq::empty());
            let session = open.run(opening).claims;
            let end = ExchangeState::start(ending, visits_leave(session, visits));
            let total = |pick: spec_fn(Entry) -> bool|
                count(open.log(opening), pick) + visits_count(session, visits, pick) + count(
                    end.log(closing),
                    pick,
                );
            &&& total(release()) == total(granted_claim())
            &&& total(granted_claim()) == interfaces().len()
            &&& total(release_of(interface)) == total(granted_claim_of(interface))
            &&& total(granted_claim_of(interface)) == (if interfaces().contains(interface) {
                1nat
            } else {
                0nat
            })
            &&& total(reattach(interface)) == count(open.log(opening), driver_found(interface))
            &&& count(open.log(opening), driver_found(interface)) <= 1
        }),
{
    let open = ExchangeState::start(Operation::Open, Seq::empty());
    let session = open.run(opening).claims;
    start_is_wf(Operation::Open, Seq::empty());
    releases_match_claims(Operation::Open, Seq::empty(), opening);
    each_interface_is_released_once(Operation::Open, Seq::empty(), opening, interface);
    clean_open_gives_nothing_back(open, opening);
    count_none(open.log(opening), reattach(interface));
    visits_leave_session_untouched(session, visits, interface);
    releases_match_claims(ending, session, closing);
    each_interface_is_released_once(ending, session, closing, interface);
    reattach_matches_open(opening, ending, closing, interface);
}

/// A reset or a close leaves no session, whatever the device answers and
/// whether the reset succeeds or not; and once it has its result, it asks
/// nothing more of the device.
pub proof fn ended_session_is_gone(operation: Operation, claims: Seq<Claim>, replies: Seq<Reply>)
    requires
        operation.ends_session(),
        claims_complete(claims),
    ensures
        !ExchangeState::start(operation, claims).run(replies).yields_session(),
        ExchangeState::start(operation, claims).run(replies).is_finished()
            ==> ExchangeState::start(operation, claims).run(replies).request() is None,
{
    let start = ExchangeState::start(operation, claims);
    start_is_wf(operation, claims);
    run_is_wf(start, replies);
}

} // verus!
