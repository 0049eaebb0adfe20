//! What holds of every connection attempt: it ends on the first listed port that opens
//! and validates, and fails only when no listed port does.

use crate::error::LinkErrorView;
use crate::link::{
    idle, link_step, pending_action, AttemptState, LinkActionView, LinkEventView, LinkPhase,
    BAUD_RATE,
};
use vstd::prelude::*;

verus! {

/// What trying one port brings.
pub enum PortOutcome {
    /// The port cannot be opened.
    Unopenable,
    /// The port opens and the validator rejects it.
    Invalid,
    /// The port opens and the validator accepts it.
    Valid,
}

/// The events that a caller reports while it tries a port with this outcome.
pub open spec fn port_events(outcome: PortOutcome) -> Seq<LinkEventView> {
    match outcome {
        PortOutcome::Unopenable => seq![LinkEventView::OpenFailed],
        PortOutcome::Invalid => seq![
            LinkEventView::Opened,
            LinkEventView::Invalid,
            LinkEventView::Closed,
        ],
        PortOutcome::Valid => seq![LinkEventView::Opened, LinkEventView::Valid],
    }
}

/// The events that a caller reports while it tries ports with these outcomes in turn.
pub open spec fn trial_events(outcomes: Seq<PortOutcome>) -> Seq<LinkEventView>
    decreases outcomes.len(),
{
    if outcomes.len() == 0 {
        Seq::empty()
    } else {
        port_events(outcomes[0]) + trial_events(outcomes.drop_first())
    }
}

/// Index of the first outcome that is valid, if there is one.
pub open spec fn first_valid(outcomes: Seq<PortOutcome>) -> Option<int>
    decreases outcomes.len(),
{
    if outcomes.len() == 0 {
        None
    } else if outcomes[0] is Valid {
        Some(0)
    } else {
        match first_valid(outcomes.drop_first()) {
            Some(i) => Some(i + 1),
            None => None,
        }
    }
}

/// The state that `events` lead to from `state`.
pub open spec fn attempt_after(state: AttemptState, events: Seq<LinkEventView>) -> AttemptState
    decreases events.len(),
{
    if events.len() == 0 {
        state
    } else {
        attempt_after(link_step(state, events[0]), events.drop_first())
    }
}

/// Whether an attempt has ended.
pub open spec fn ended(state: AttemptState) -> bool {
    state.phase is Streaming || state.phase is Failed
}

/// What the first valid outcome is: valid, with none valid before it.
pub proof fn lemma_first_valid(outcomes: Seq<PortOutcome>)
    ensures
        match first_valid(outcomes) {
            Some(i) => 0 <= i < outcomes.len() && outcomes[i] is Valid && forall|j: int|
                0 <= j < i ==> !(#[trigger] outcomes[j] is Valid),
            None => forall|j: int| 0 <= j < outcomes.len() ==> !(#[trigger] outcomes[j] is Valid),
        },
    decreases outcomes.len(),
{
    if outcomes.len() > 0 && !(outcomes[0] is Valid) {
        let rest = outcomes.drop_first();
        lemma_first_valid(rest);
        match first_valid(rest) {
            Some(i) => {
                assert forall|j: int| 0 <= j < i + 1 implies !(#[trigger] outcomes[j] is Valid) by {
                    if j > 0 {
                        assert(rest[j - 1] == outcomes[j]);
                    }
                }
            },
            None => {
                assert forall|j: int| 0 <= j < outcomes.len() implies !(
                #[trigger] outcomes[j] is Valid) by {
                    if j > 0 {
                        assert(rest[j - 1] == outcomes[j]);
                    }
                }
            },
        }
    }
}

/// An attempt that has ended stays as it is.
pub proof fn lemma_ended_stays(state: AttemptState, events: Seq<LinkEventView>)
    requires
        ended(state),
    ensures
        attempt_after(state, events) == state,
    decreases events.len(),
{
    if events.len() > 0 {
        lemma_ended_stays(state, events.drop_first());
    }
}

/// Events reported one after the other lead where the first lot and then the second
/// lead.
pub proof fn lemma_attempt_after_both(
    state: AttemptState,
    first: Seq<LinkEventView>,
    second: Seq<LinkEventView>,
)
    ensures
        attempt_after(state, first + second) == attempt_after(attempt_after(state, first), second),
    decreases first.len(),
{
    if first.len() > 0 {
        assert((first + second).drop_first() =~= first.drop_first() + second);
        lemma_attempt_after_both(link_step(state, first[0]), first.drop_first(), second);
    }
}

/// Trying one port leads to streaming from it, or on to the next port.
pub proof fn lemma_one_port(state: AttemptState, i: int, outcome: PortOutcome)
    requires
        state.phase == LinkPhase::Opening(i),
    ensures
        attempt_after(state, port_events(outcome)) == (if outcome is Valid {
            state.in_phase(LinkPhase::Streaming(i))
        } else {
            state.advanced(i)
        }),
{
    reveal_with_fuel(attempt_after, 4);
}

/// Trying the ports from port `i` on, one outcome for each, leads to streaming from
/// the first that is valid, or to failure if none is.
pub proof fn lemma_trials(state: AttemptState, i: int, outcomes: Seq<PortOutcome>)
    requires
        state.phase == LinkPhase::Opening(i),
        0 <= i,
        outcomes.len() > 0,
        i + outcomes.len() == state.ports.len(),
    ensures
        attempt_after(state, trial_events(outcomes)) == (match first_valid(outcomes) {
            Some(k) => state.in_phase(LinkPhase::Streaming(i + k)),
            None => state.in_phase(LinkPhase::Failed(LinkErrorView::NoValidConnectionFound)),
        }),
    decreases outcomes.len(),
{
    let rest = outcomes.drop_first();
    let next = attempt_after(state, port_events(outcomes[0]));
    lemma_one_port(state, i, outcomes[0]);
    lemma_attempt_after_both(state, port_events(outcomes[0]), trial_events(rest));
    if outcomes[0] is Valid {
        lemma_ended_stays(next, trial_events(rest));
    } else if rest.len() == 0 {
        assert(first_valid(rest) is None);
        lemma_ended_stays(next, trial_events(rest));
    } else {
        lemma_trials(next, i + 1, rest);
    }
}

/// Law of the attempt. Given the list of ports and, for each port, what trying it
/// brings, an attempt that is reported to truthfully ends streaming from the first
/// port that opens and validates, and asks to stream from the port of that name. It
/// fails, with "no valid connection found", exactly if no port opens and validates,
/// and with "no ports available" if the list is empty.
pub proof fn law_attempt_ends_on_first_valid_port(
    ports: Seq<Seq<char>>,
    outcomes: Seq<PortOutcome>,
)
    requires
        outcomes.len() == ports.len(),
    ensures
        ({
            let events = seq![LinkEventView::PortsListed(ports)] + trial_events(outcomes);
            let last = attempt_after(idle(), events);
            if ports.len() == 0 {
                last.phase == LinkPhase::Failed(LinkErrorView::NoPortsAvailable)
            } else {
                match first_valid(outcomes) {
                    Some(k) => {
                        &&& 0 <= k < ports.len()
                        &&& outcomes[k] is Valid
                        &&& forall|j: int| 0 <= j < k ==> !(#[trigger] outcomes[j] is Valid)
                        &&& last == (AttemptState { ports, phase: LinkPhase::Streaming(k) })
                        &&& pending_action(last) == (LinkActionView::Stream {
                            port_name: ports[k],
                        })
                    },
                    None => {
                        &&& forall|j: int|
                            0 <= j < ports.len() ==> !(#[trigger] outcomes[j] is Valid)
                        &&& last.phase == LinkPhase::Failed(
                            LinkErrorView::NoValidConnectionFound,
                        )
                    },
                }
            }
        }),
{
    let listed = seq![LinkEventView::PortsListed(ports)];
    let begun = link_step(idle(), LinkEventView::PortsListed(ports));
    lemma_attempt_after_both(idle(), listed, trial_events(outcomes));
    assert(attempt_after(idle(), listed) == begun) by {
        reveal_with_fuel(attempt_after, 2);
    }
    lemma_first_valid(outcomes);
    if ports.len() == 0 {
        lemma_ended_stays(begun, trial_events(outcomes));
    } else {
        lemma_trials(begun, 0, outcomes);
    }
}

/// Law of the order. While a port is to be opened, the action asked for is to open
/// the port at hand at the fixed baud rate; and the port at hand moves on by one port
/// at a time, only when the port could not be opened or was closed after the validator
/// rejected it.
pub proof fn law_ports_are_tried_in_order(state: AttemptState, event: LinkEventView)
    requires
        state.well_formed(),
    ensures
        ({
            let next = link_step(state, event);
            &&& next.well_formed()
            &&& next.phase matches LinkPhase::Opening(i) ==> {
                &&& pending_action(next) == (LinkActionView::Open {
                    port_name: next.ports[i],
                    baud_rate: BAUD_RATE,
                })
                &&& {
                    ||| next == state
                    ||| state.phase is Idle && i == 0
                    ||| state.phase == LinkPhase::Opening(i - 1) && event is OpenFailed
                    ||| state.phase == LinkPhase::Closing(i - 1) && event is Closed
                }
            }
            &&& next.phase matches LinkPhase::Closing(i) ==> {
                ||| next == state
                ||| state.phase == LinkPhase::Validating(i) && event is Invalid
            }
            &&& next.phase matches LinkPhase::Streaming(i) ==> {
                ||| next == state
                ||| state.phase == LinkPhase::Validating(i) && event is Valid
            }
        }),
{
}

} // verus!
