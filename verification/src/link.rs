//! The connection orchestrator: tries the listed ports one after the other until one
//! opens and validates.
//!
//! The orchestrator decides, the caller acts. An attempt starts with the action
//! [`LinkAction::Enumerate`]; the caller performs each action on the system and the
//! port handle store and reports what came of it as a [`LinkEvent`]. The attempt ends
//! with [`LinkAction::Stream`], which names the port to decode from, or with
//! [`LinkAction::Fail`].
//!
//! A port that cannot be opened counts like one that does not validate: the next port
//! is tried. A port that was opened and did not validate is closed first.

use crate::error::{LinkError, LinkErrorView};
use vstd::prelude::*;

verus! {

/// The baud rate at which every candidate port is opened.
pub const BAUD_RATE: u32 = 115200;

/// What the caller reports to the orchestrator.
#[derive(Debug, PartialEq, Eq)]
pub enum LinkEvent {
    /// The system lists these ports, in this order.
    PortsListed(Vec<String>),
    /// The system could not list its ports, for this reason.
    EnumerationFailed(String),
    /// The port was opened and stored.
    Opened,
    /// The port could not be opened.
    OpenFailed,
    /// The validator accepted the port.
    Valid,
    /// The validator rejected the port.
    Invalid,
    /// The port was closed.
    Closed,
}

/// Mathematical value of a [`LinkEvent`].
pub enum LinkEventView {
    PortsListed(Seq<Seq<char>>),
    EnumerationFailed(Seq<char>),
    Opened,
    OpenFailed,
    Valid,
    Invalid,
    Closed,
}

impl View for LinkEvent {
    type V = LinkEventView;

    open spec fn view(&self) -> LinkEventView {
        match self {
            LinkEvent::PortsListed(ports) => LinkEventView::PortsListed(ports.deep_view()),
            LinkEvent::EnumerationFailed(reason) => LinkEventView::EnumerationFailed(reason@),
            LinkEvent::Opened => LinkEventView::Opened,
            LinkEvent::OpenFailed => LinkEventView::OpenFailed,
            LinkEvent::Valid => LinkEventView::Valid,
            LinkEvent::Invalid => LinkEventView::Invalid,
            LinkEvent::Closed => LinkEventView::Closed,
        }
    }
}

/// What the orchestrator asks the caller to do next.
#[derive(Debug, PartialEq, Eq)]
pub enum LinkAction {
    /// List the ports of the system.
    Enumerate,
    /// Open this port at this baud rate through the port handle store.
    Open { port_name: String, baud_rate: u32 },
    /// Validate the port that was opened last.
    Validate,
    /// Close the port that was opened last.
    Close,
    /// Start decoding from the port that was opened last; the attempt has succeeded
    /// on this port.
    Stream { port_name: String },
    /// The attempt has failed.
    Fail(LinkError),
}

/// Mathematical value of a [`LinkAction`].
pub enum LinkActionView {
    Enumerate,
    Open { port_name: Seq<char>, baud_rate: u32 },
    Validate,
    Close,
    Stream { port_name: Seq<char> },
    Fail(LinkErrorView),
}

impl View for LinkAction {
    type V = LinkActionView;

    open spec fn view(&self) -> LinkActionView {
        match self {
            LinkAction::Enumerate => LinkActionView::Enumerate,
            LinkAction::Open { port_name, baud_rate } => LinkActionView::Open {
                port_name: port_name@,
                baud_rate: *baud_rate,
            },
            LinkAction::Validate => LinkActionView::Validate,
            LinkAction::Close => LinkActionView::Close,
            LinkAction::Stream { port_name } => LinkActionView::Stream { port_name: port_name@ },
            LinkAction::Fail(error) => LinkActionView::Fail(error@),
        }
    }
}

/// Where an attempt stands. The number is the index of the port at hand.
pub enum LinkPhase {
    /// Nothing done yet.
    Idle,
    Opening(int),
    Validating(int),
    Closing(int),
    /// Ended in success on this port.
    Streaming(int),
    /// Ended in failure.
    Failed(LinkErrorView),
}

/// Mathematical value of a [`ConnectionAttempt`].
pub struct AttemptState {
    /// The candidate ports, in the order in which they are tried.
    pub ports: Seq<Seq<char>>,
    pub phase: LinkPhase,
}

impl AttemptState {
    /// Whether the port at hand is one of the candidates.
    pub open spec fn well_formed(self) -> bool {
        match self.phase {
            LinkPhase::Idle => true,
            LinkPhase::Opening(i) => 0 <= i < self.ports.len(),
            LinkPhase::Validating(i) => 0 <= i < self.ports.len(),
            LinkPhase::Closing(i) => 0 <= i < self.ports.len(),
            LinkPhase::Streaming(i) => 0 <= i < self.ports.len(),
            LinkPhase::Failed(_) => true,
        }
    }

    /// The state in which the port after port `i` is at hand; with no port left, the
    /// attempt has failed.
    pub open spec fn advanced(self, i: int) -> AttemptState {
        if i + 1 < self.ports.len() {
            AttemptState { ports: self.ports, phase: LinkPhase::Opening(i + 1) }
        } else {
            AttemptState {
                ports: self.ports,
                phase: LinkPhase::Failed(LinkErrorView::NoValidConnectionFound),
            }
        }
    }

    /// The same candidates in another phase.
    pub open spec fn in_phase(self, phase: LinkPhase) -> AttemptState {
        AttemptState { ports: self.ports, phase }
    }
}

/// The state in which an attempt starts.
pub open spec fn idle() -> AttemptState {
    AttemptState { ports: Seq::empty(), phase: LinkPhase::Idle }
}

/// The orchestrator's transition: the state that follows `event` in `state`. An event
/// that does not answer the action of `state` changes nothing.
pub open spec fn link_step(state: AttemptState, event: LinkEventView) -> AttemptState {
    match (state.phase, event) {
        (LinkPhase::Idle, LinkEventView::PortsListed(ports)) => {
            if ports.len() == 0 {
                state.in_phase(LinkPhase::Failed(LinkErrorView::NoPortsAvailable))
            } else {
                AttemptState { ports, phase: LinkPhase::Opening(0) }
            }
        },
        (LinkPhase::Idle, LinkEventView::EnumerationFailed(reason)) => state.in_phase(
            LinkPhase::Failed(LinkErrorView::EnumerationFailed(reason)),
        ),
        (LinkPhase::Opening(i), LinkEventView::Opened) => state.in_phase(LinkPhase::Validating(i)),
        (LinkPhase::Opening(i), LinkEventView::OpenFailed) => state.advanced(i),
        (LinkPhase::Validating(i), LinkEventView::Valid) => state.in_phase(LinkPhase::Streaming(i)),
        (LinkPhase::Validating(i), LinkEventView::Invalid) => state.in_phase(LinkPhase::Closing(i)),
        (LinkPhase::Closing(i), LinkEventView::Closed) => state.advanced(i),
        _ => state,
    }
}

/// The action that `state` asks for.
pub open spec fn pending_action(state: AttemptState) -> LinkActionView {
    match state.phase {
        LinkPhase::Idle => LinkActionView::Enumerate,
        LinkPhase::Opening(i) => LinkActionView::Open {
            port_name: state.ports[i],
            baud_rate: BAUD_RATE,
        },
        LinkPhase::Validating(_) => LinkActionView::Validate,
        LinkPhase::Closing(_) => LinkActionView::Close,
        LinkPhase::Streaming(i) => LinkActionView::Stream { port_name: state.ports[i] },
        LinkPhase::Failed(error) => LinkActionView::Fail(error),
    }
}

/// Where an attempt stands, as the orchestrator keeps it.
enum Progress {
    Idle,
    Opening(usize),
    Validating(usize),
    Closing(usize),
    Streaming(usize),
    Failed(LinkError),
}

impl View for Progress {
    type V = LinkPhase;

    closed spec fn view(&self) -> LinkPhase {
        match self {
            Progress::Idle => LinkPhase::Idle,
            Progress::Opening(i) => LinkPhase::Opening(*i as int),
            Progress::Validating(i) => LinkPhase::Validating(*i as int),
            Progress::Closing(i) => LinkPhase::Closing(*i as int),
            Progress::Streaming(i) => LinkPhase::Streaming(*i as int),
            Progress::Failed(error) => LinkPhase::Failed(error@),
        }
    }
}

/// One attempt to connect.
pub struct ConnectionAttempt {
    ports: Vec<String>,
    progress: Progress,
}

impl View for ConnectionAttempt {
    type V = AttemptState;

    closed spec fn view(&self) -> AttemptState {
        AttemptState { ports: self.ports.deep_view(), phase: self.progress@ }
    }
}

impl ConnectionAttempt {
    #[verifier::type_invariant]
    spec fn port_at_hand_exists(self) -> bool {
        self@.well_formed()
    }

    /// An attempt that has not begun.
    pub fn new() -> (attempt: Self)
        ensures
            attempt@ == idle(),
    {
        let attempt = ConnectionAttempt { ports: Vec::new(), progress: Progress::Idle };
        proof {
            assert(attempt.ports.deep_view() =~= Seq::<Seq<char>>::empty());
        }
        attempt
    }

    /// The action that the attempt asks for as it stands.
    pub fn action(&self) -> (action: LinkAction)
        ensures
            action@ == pending_action(self@),
            self@.well_formed(),
    {
        proof {
            use_type_invariant(self);
        }
        match &self.progress {
            Progress::Idle => LinkAction::Enumerate,
            Progress::Opening(i) => LinkAction::Open {
                port_name: self.ports[*i].clone(),
                baud_rate: BAUD_RATE,
            },
            Progress::Validating(_) => LinkAction::Validate,
            Progress::Closing(_) => LinkAction::Close,
            Progress::Streaming(i) => LinkAction::Stream { port_name: self.ports[*i].clone() },
            Progress::Failed(error) => LinkAction::Fail(error.duplicate()),
        }
    }

    /// Takes one event and answers with the next action.
    pub fn step(&mut self, event: LinkEvent) -> (action: LinkAction)
        ensures
            final(self)@ == link_step(old(self)@, event@),
            action@ == pending_action(final(self)@),
            final(self)@.well_formed(),
    {
        proof {
            use_type_invariant(&*self);
        }
        let count: usize = self.ports.len();
        let next: Option<Progress> = match (&self.progress, event) {
            (Progress::Idle, LinkEvent::PortsListed(ports)) => {
                if ports.len() == 0 {
                    Some(Progress::Failed(LinkError::NoPortsAvailable))
                } else {
                    self.ports = ports;
                    Some(Progress::Opening(0))
                }
            },
            (Progress::Idle, LinkEvent::EnumerationFailed(reason)) => Some(
                Progress::Failed(LinkError::EnumerationFailed(reason)),
            ),
            (Progress::Opening(i), LinkEvent::Opened) => Some(Progress::Validating(*i)),
            (Progress::Opening(i), LinkEvent::OpenFailed) => Some(next_port(*i, count)),
            (Progress::Validating(i), LinkEvent::Valid) => Some(Progress::Streaming(*i)),
            (Progress::Validating(i), LinkEvent::Invalid) => Some(Progress::Closing(*i)),
            (Progress::Closing(i), LinkEvent::Closed) => Some(next_port(*i, count)),
            _ => None,
        };
        match next {
            Some(progress) => {
                self.progress = progress;
            },
            None => {},
        }
        self.action()
    }
}

/// The progress in which the port after port `i` of `count` is at hand.
fn next_port(i: usize, count: usize) -> (progress: Progress)
    requires
        i < count,
    ensures
        progress@ == (if i + 1 < count {
            LinkPhase::Opening(i + 1)
        } else {
            LinkPhase::Failed(LinkErrorView::NoValidConnectionFound)
        }),
{
    if i + 1 < count {
        Progress::Opening(i + 1)
    } else {
        Progress::Failed(LinkError::NoValidConnectionFound)
    }
}

} // verus!
