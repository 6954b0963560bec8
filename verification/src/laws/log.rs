//! Counting the entries of a log.

use vstd::prelude::*;
use crate::machine::{next_is_wf, Entry, ExchangeState};
use crate::transport::{Action, Reply};

verus! {

/// How many entries of `log` are of the kind that `pick` picks.
pub open spec fn count(log: Seq<Entry>, pick: spec_fn(Entry) -> bool) -> nat
    decreases log.len(),
{
    if log.len() == 0 {
        0
    } else {
        (if pick(log[0]) {
            1nat
        } else {
            0nat
        }) + count(log.skip(1), pick)
    }
}

/// Picks the claims that were granted.
pub open spec fn granted_claim() -> spec_fn(Entry) -> bool {
    |entry: Entry| entry.0 is ClaimInterface && entry.1 is Done
}

/// Picks the attempts to release an interface.
pub open spec fn release() -> spec_fn(Entry) -> bool {
    |entry: Entry| entry.0 is ReleaseInterface
}

/// Picks the claims of `interface` that were granted.
pub open spec fn granted_claim_of(interface: u8) -> spec_fn(Entry) -> bool {
    |entry: Entry| entry.0 == (Action::ClaimInterface { interface }) && entry.1 is Done
}

/// Picks the attempts to release `interface`.
pub open spec fn release_of(interface: u8) -> spec_fn(Entry) -> bool {
    |entry: Entry| entry.0 == (Action::ReleaseInterface { interface })
}

/// Picks the attempts to give `interface` back to a kernel driver.
pub open spec fn reattach(interface: u8) -> spec_fn(Entry) -> bool {
    |entry: Entry| entry.0 == (Action::AttachKernelDriver { interface })
}

/// Picks the queries that found a kernel driver bound to `interface`.
pub open spec fn driver_found(interface: u8) -> spec_fn(Entry) -> bool {
    |entry: Entry|
        entry.0 == (Action::QueryKernelDriver { interface }) && entry.1 == Reply::KernelDriver(true)
}

/// Whether a request changes who holds an interface: the session or a kernel
/// driver.
pub open spec fn moves_interface(action: Action) -> bool {
    ||| action is DetachKernelDriver
    ||| action is ClaimInterface
    ||| action is ReleaseInterface
    ||| action is AttachKernelDriver
}

/// The count of a log that is not empty is the count of what follows its
/// first entry, and one more if the first entry is picked.
pub proof fn count_step(state: ExchangeState, replies: Seq<Reply>, pick: spec_fn(Entry) -> bool)
    requires
        replies.len() > 0,
        !state.is_finished(),
    ensures
        count(state.log(replies), pick) == (if pick((state.request().unwrap(), replies[0])) {
            1nat
        } else {
            0nat
        }) + count(state.next(replies[0]).log(replies.skip(1)), pick),
{
    let first = (state.request().unwrap(), replies[0]);
    let rest = state.next(replies[0]).log(replies.skip(1));
    assert((seq![first] + rest).skip(1) =~= rest);
}

/// Where no entry is picked, the count is zero.
pub proof fn count_none(log: Seq<Entry>, pick: spec_fn(Entry) -> bool)
    requires
        forall|i: int| 0 <= i < log.len() ==> !pick(#[trigger] log[i]),
    ensures
        count(log, pick) == 0,
    decreases log.len(),
{
    if log.len() > 0 {
        count_none(log.skip(1), pick);
    }
}

/// A finished exchange stays as it is, and performs no request.
pub proof fn finished_stays(state: ExchangeState, replies: Seq<Reply>)
    requires
        state.is_finished(),
    ensures
        state.run(replies) == state,
        state.log(replies) == Seq::<Entry>::empty(),
    decreases replies.len(),
{
    if replies.len() > 0 {
        finished_stays(state, replies.skip(1));
    }
}

/// Every state on the way is one an exchange can be in, and the operation
/// stays the same.
pub proof fn run_is_wf(state: ExchangeState, replies: Seq<Reply>)
    requires
        state.wf(),
    ensures
        state.run(replies).wf(),
        state.run(replies).operation == state.operation,
    decreases replies.len(),
{
    if replies.len() > 0 {
        next_is_wf(state, replies[0]);
        run_is_wf(state.next(replies[0]), replies.skip(1));
    }
}

/// The entries of a log that is not empty are its first entry and then the
/// entries of the log that follows the first reply.
pub proof fn log_step(state: ExchangeState, replies: Seq<Reply>)
    requires
        replies.len() > 0,
        !state.is_finished(),
    ensures
        state.log(replies).len() == 1 + state.next(replies[0]).log(replies.skip(1)).len(),
        state.log(replies)[0] == (state.request().unwrap(), replies[0]),
        forall|i: int|
            1 <= i < state.log(replies).len() ==> #[trigger] state.log(replies)[i] == state.next(
                replies[0],
            ).log(replies.skip(1))[i - 1],
{
}

} // verus!
