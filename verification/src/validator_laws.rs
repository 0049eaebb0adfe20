//! What holds of every validation: the verdict is "accepted" exactly where the input
//! read up to the verdict qualifies, and each rejection has its cause among the events.

use crate::validator::{
    initial_validation, marker_at, payload, speaks_protocol, validator_step, RejectReason,
    ValidatorEventView, ValidatorState, Verdict, VALIDATION_WINDOW_MS,
};
use vstd::prelude::*;

verus! {

/// The state that `events`, each with the time at which it was reported, lead to from
/// `state`.
pub open spec fn validation(
    state: ValidatorState,
    events: Seq<(u64, ValidatorEventView)>,
) -> ValidatorState
    decreases events.len(),
{
    if events.len() == 0 {
        state
    } else {
        validation(validator_step(state, events[0].0, events[0].1).0, events.drop_first())
    }
}

/// All bytes that `events` bring, in order.
pub open spec fn input(events: Seq<(u64, ValidatorEventView)>) -> Seq<u8>
    decreases events.len(),
{
    if events.len() == 0 {
        Seq::empty()
    } else {
        payload(events[0].1) + input(events.drop_first())
    }
}

/// Whether the verdict of `state` is "accepted" exactly if its input qualifies.
pub open spec fn verdict_matches_input(state: ValidatorState) -> bool {
    state.verdict == Some(Verdict::Accepted) <==> speaks_protocol(state.seen)
}

/// Whether some event of `events` was reported after the window had elapsed.
pub open spec fn window_elapsed(events: Seq<(u64, ValidatorEventView)>) -> bool {
    exists|k: int| 0 <= k < events.len() && (#[trigger] events[k]).0 >= VALIDATION_WINDOW_MS
}

/// Whether some event of `events` reports a failed read.
pub open spec fn read_failed(events: Seq<(u64, ValidatorEventView)>) -> bool {
    exists|k: int| 0 <= k < events.len() && (#[trigger] events[k]).1 is ReadFailed
}

/// No input at all does not qualify.
pub proof fn lemma_nothing_read_does_not_qualify()
    ensures
        !speaks_protocol(Seq::empty()),
{
    assert forall|i: int| !marker_at(Seq::empty(), i) by {}
}

/// A verdict, once reached, stands.
pub proof fn lemma_verdict_stands(state: ValidatorState, events: Seq<(u64, ValidatorEventView)>)
    requires
        state.verdict is Some,
    ensures
        validation(state, events) == state,
    decreases events.len(),
{
    if events.len() > 0 {
        lemma_verdict_stands(state, events.drop_first());
    }
}

/// The law below, from any state in which the verdict matches the input.
pub proof fn lemma_validation(state: ValidatorState, events: Seq<(u64, ValidatorEventView)>)
    requires
        verdict_matches_input(state),
        state.verdict is None,
    ensures
        ({
            let last = validation(state, events);
            let all = state.seen + input(events);
            &&& verdict_matches_input(last)
            &&& last.seen.is_prefix_of(all)
            &&& last.verdict is None ==> last.seen == all && !window_elapsed(events) && !read_failed(
                events,
            )
            &&& last.verdict == Some(Verdict::Rejected(RejectReason::TimedOut)) ==> window_elapsed(
                events,
            )
            &&& last.verdict == Some(Verdict::Rejected(RejectReason::LinkFailed)) ==> read_failed(
                events,
            )
        }),
    decreases events.len(),
{
    let last = validation(state, events);
    if events.len() > 0 {
        let rest = events.drop_first();
        let next = validator_step(state, events[0].0, events[0].1).0;
        if next.verdict is Some {
            lemma_verdict_stands(next, rest);
        } else {
            lemma_validation(next, rest);
            if last.verdict is None {
                assert forall|k: int| 0 <= k < events.len() implies (#[trigger] events[k]).0
                    < VALIDATION_WINDOW_MS && !(events[k].1 is ReadFailed) by {
                    if k > 0 {
                        assert(events[k] == rest[k - 1]);
                    }
                }
            }
        }
    }
}

/// Law of the verdict. Whatever is reported, from the start of a validation on: the
/// verdict is "accepted" if and only if the input read up to the verdict holds the
/// marker followed by a field in range. While there is no verdict, everything reported
/// has been read, no report came after the window had elapsed, and no read failed. A
/// rejection for time has a report after the window behind it, a rejection for the
/// link a failed read.
pub proof fn law_verdict_matches_input(events: Seq<(u64, ValidatorEventView)>)
    ensures
        ({
            let last = validation(initial_validation(), events);
            &&& last.verdict == Some(Verdict::Accepted) <==> speaks_protocol(last.seen)
            &&& last.seen.is_prefix_of(input(events))
            &&& last.verdict is None ==> last.seen == input(events) && !window_elapsed(events)
                && !read_failed(events)
            &&& last.verdict == Some(Verdict::Rejected(RejectReason::TimedOut)) ==> window_elapsed(
                events,
            )
            &&& last.verdict == Some(Verdict::Rejected(RejectReason::LinkFailed)) ==> read_failed(
                events,
            )
        }),
{
    lemma_nothing_read_does_not_qualify();
    lemma_validation(initial_validation(), events);
}

} // verus!
