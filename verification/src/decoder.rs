//! The streaming decoder: reassembles lines from the bytes that arrive and turns each
//! well-formed line into a reading.
//!
//! The decoder decides, the caller acts. A session starts with the action
//! [`DecoderAction::CheckCancel`]; the caller performs each action and reports what
//! came of it as a [`DecoderEvent`], which [`StreamDecoder::step`] answers with the next
//! action, until that is [`DecoderAction::Stop`].

use crate::reading::{decode_line, decoded_line, RpmReading, RpmReadingView};
use crate::text::{find, first_match, lemma_first_match, line_end, NEWLINE};
use vstd::prelude::*;
use vstd::slice::slice_subrange;

verus! {

/// Why a decoding session ended.
#[derive(Debug, Clone, Copy, PartialEq, Eq)]
pub enum StopReason {
    /// The cancellation flag was found set.
    Cancelled,
    /// A read failed with an error other than a timeout.
    LinkFailed,
    /// The sink no longer accepts readings.
    SinkUnavailable,
}

/// Whether a session is still decoding.
#[derive(Debug, Clone, Copy, PartialEq, Eq)]
pub enum DecoderStatus {
    Running,
    Stopped(StopReason),
}

/// What the caller reports to the decoder.
#[derive(Debug, PartialEq, Eq)]
pub enum DecoderEvent {
    /// The cancellation flag was read and had this value.
    Cancel(bool),
    /// A read returned these bytes, possibly none.
    Data(Vec<u8>),
    /// A read ran into its timeout.
    TimedOut,
    /// A read failed with another error.
    ReadFailed,
    /// The sink took the reading it was given.
    Delivered,
    /// The sink refused the reading it was given.
    Rejected,
}

/// What the decoder asks the caller to do next.
#[derive(Debug, PartialEq, Eq)]
pub enum DecoderAction {
    /// Read the cancellation flag and report it with [`DecoderEvent::Cancel`].
    CheckCancel,
    /// Read from the link with the bounded timeout and report the outcome.
    Read,
    /// Hand this reading to the sink and report whether it took it.
    Emit(RpmReading),
    /// End the session.
    Stop(StopReason),
}

/// Mathematical value of a [`DecoderEvent`].
pub enum DecoderEventView {
    Cancel(bool),
    Data(Seq<u8>),
    TimedOut,
    ReadFailed,
    Delivered,
    Rejected,
}

impl View for DecoderEvent {
    type V = DecoderEventView;

    open spec fn view(&self) -> DecoderEventView {
        match self {
            DecoderEvent::Cancel(flag) => DecoderEventView::Cancel(*flag),
            DecoderEvent::Data(bytes) => DecoderEventView::Data(bytes@),
            DecoderEvent::TimedOut => DecoderEventView::TimedOut,
            DecoderEvent::ReadFailed => DecoderEventView::ReadFailed,
            DecoderEvent::Delivered => DecoderEventView::Delivered,
            DecoderEvent::Rejected => DecoderEventView::Rejected,
        }
    }
}

/// Mathematical value of a [`DecoderAction`].
pub enum DecoderActionView {
    CheckCancel,
    Read,
    Emit(RpmReadingView),
    Stop(StopReason),
}

impl View for DecoderAction {
    type V = DecoderActionView;

    open spec fn view(&self) -> DecoderActionView {
        match self {
            DecoderAction::CheckCancel => DecoderActionView::CheckCancel,
            DecoderAction::Read => DecoderActionView::Read,
            DecoderAction::Emit(reading) => DecoderActionView::Emit(reading@),
            DecoderAction::Stop(reason) => DecoderActionView::Stop(*reason),
        }
    }
}

/// Mathematical value of a [`StreamDecoder`].
pub struct DecoderState {
    /// Bytes received and not yet resolved into a line.
    pub pending: Seq<u8>,
    pub status: DecoderStatus,
}

/// The reading of the first complete line of `buf` that is well formed, and what
/// follows that line. Malformed lines before it are passed over.
pub open spec fn next_reading(buf: Seq<u8>) -> Option<(RpmReadingView, Seq<u8>)>
    decreases buf.len(),
{
    match first_match(buf, line_end()) {
        None => None,
        Some(end) => {
            if 0 <= end < buf.len() {
                match decoded_line(buf.take(end)) {
                    Some(reading) => Some((reading, buf.skip(end + 1))),
                    None => next_reading(buf.skip(end + 1)),
                }
            } else {
                None
            }
        },
    }
}

/// What follows the last line terminator of `buf`: the line that is not complete yet.
pub open spec fn unterminated_tail(buf: Seq<u8>) -> Seq<u8>
    decreases buf.len(),
{
    match first_match(buf, line_end()) {
        None => buf,
        Some(end) => {
            if 0 <= end < buf.len() {
                unterminated_tail(buf.skip(end + 1))
            } else {
                buf
            }
        },
    }
}

/// The state in which a session starts.
pub open spec fn initial_state() -> DecoderState {
    DecoderState { pending: Seq::empty(), status: DecoderStatus::Running }
}

/// The state after a session has ended: the accumulator is discarded.
pub open spec fn stopped_state(reason: StopReason) -> DecoderState {
    DecoderState { pending: Seq::empty(), status: DecoderStatus::Stopped(reason) }
}

/// Resolving the accumulator `buf`: up to the first well-formed line, which is to be
/// emitted, or, where no complete line is well formed, down to the unterminated tail.
pub open spec fn resolved(buf: Seq<u8>) -> (DecoderState, DecoderActionView) {
    match next_reading(buf) {
        Some((reading, rest)) => (
            DecoderState { pending: rest, status: DecoderStatus::Running },
            DecoderActionView::Emit(reading),
        ),
        None => (
            DecoderState { pending: unterminated_tail(buf), status: DecoderStatus::Running },
            DecoderActionView::CheckCancel,
        ),
    }
}

/// The decoder's transition: the state and the action that follow `event` in `state`.
pub open spec fn decoder_step(state: DecoderState, event: DecoderEventView) -> (
    DecoderState,
    DecoderActionView,
) {
    match state.status {
        DecoderStatus::Stopped(reason) => (state, DecoderActionView::Stop(reason)),
        DecoderStatus::Running => match event {
            DecoderEventView::Cancel(true) => (
                stopped_state(StopReason::Cancelled),
                DecoderActionView::Stop(StopReason::Cancelled),
            ),
            DecoderEventView::Cancel(false) => (state, DecoderActionView::Read),
            DecoderEventView::Data(bytes) => resolved(state.pending + bytes),
            DecoderEventView::TimedOut => (state, DecoderActionView::CheckCancel),
            DecoderEventView::ReadFailed => (
                stopped_state(StopReason::LinkFailed),
                DecoderActionView::Stop(StopReason::LinkFailed),
            ),
            DecoderEventView::Delivered => resolved(state.pending),
            DecoderEventView::Rejected => (
                stopped_state(StopReason::SinkUnavailable),
                DecoderActionView::Stop(StopReason::SinkUnavailable),
            ),
        },
    }
}

/// The decoder of one streaming session.
#[derive(Debug)]
pub struct StreamDecoder {
    pending: Vec<u8>,
    status: DecoderStatus,
}

impl View for StreamDecoder {
    type V = DecoderState;

    closed spec fn view(&self) -> DecoderState {
        DecoderState { pending: self.pending@, status: self.status }
    }
}

impl StreamDecoder {
    /// A decoder at the start of a session: running, with nothing accumulated.
    pub fn new() -> (decoder: Self)
        ensures
            decoder@ == initial_state(),
    {
        StreamDecoder { pending: Vec::new(), status: DecoderStatus::Running }
    }

    /// Whether the session is running or has stopped, and why.
    pub fn status(&self) -> (status: DecoderStatus)
        ensures
            status == self@.status,
    {
        self.status
    }

    /// Number of bytes accumulated and not yet resolved into a line.
    pub fn pending_len(&self) -> (n: usize)
        ensures
            n == self@.pending.len(),
    {
        self.pending.len()
    }

    /// Takes one event and answers with the next action.
    pub fn step(&mut self, event: DecoderEvent) -> (action: DecoderAction)
        ensures
            (final(self)@, action@) == decoder_step(old(self)@, event@),
    {
        match self.status {
            DecoderStatus::Stopped(reason) => DecoderAction::Stop(reason),
            DecoderStatus::Running => match event {
                DecoderEvent::Cancel(flag) => {
                    if flag {
                        self.stop(StopReason::Cancelled)
                    } else {
                        DecoderAction::Read
                    }
                },
                DecoderEvent::Data(bytes) => {
                    let mut bytes = bytes;
                    self.pending.append(&mut bytes);
                    self.resolve()
                },
                DecoderEvent::TimedOut => DecoderAction::CheckCancel,
                DecoderEvent::ReadFailed => self.stop(StopReason::LinkFailed),
                DecoderEvent::Delivered => self.resolve(),
                DecoderEvent::Rejected => self.stop(StopReason::SinkUnavailable),
            },
        }
    }

    /// Ends the session and discards the accumulator.
    fn stop(&mut self, reason: StopReason) -> (action: DecoderAction)
        ensures
            final(self)@ == stopped_state(reason),
            action@ == DecoderActionView::Stop(reason),
    {
        self.pending = Vec::new();
        self.status = DecoderStatus::Stopped(reason);
        DecoderAction::Stop(reason)
    }

    /// Passes over the complete lines of the accumulator up to the first that is well
    /// formed and removes them from it.
    fn resolve(&mut self) -> (action: DecoderAction)
        requires
            old(self)@.status == DecoderStatus::Running,
        ensures
            (final(self)@, action@) == resolved(old(self)@.pending),
    {
        let end: [u8; 1] = [NEWLINE];
        let ghost all = self.pending@;
        let buf = self.pending.as_slice();
        let mut pos: usize = 0;
        let mut found: Option<RpmReading> = None;
        let mut more: bool = true;
        proof {
            assert(all.skip(0) =~= all);
        }
        while more
            invariant
                buf@ == all,
                end@ == line_end(),
                pos <= buf.len(),
                more ==> found is None && next_reading(all) == next_reading(all.skip(pos as int))
                    && unterminated_tail(all) == unterminated_tail(all.skip(pos as int)),
                !more && found is None ==> next_reading(all) is None && unterminated_tail(all)
                    == all.skip(pos as int),
                found matches Some(reading) ==> !more && next_reading(all) == Some(
                    (reading@, all.skip(pos as int)),
                ),
            decreases buf.len() - pos + (if more { 1int } else { 0int }),
        {
            let rest = slice_subrange(buf, pos, buf.len());
            proof {
                lemma_first_match(rest@, line_end());
            }
            match find(rest, end.as_slice()) {
                None => {
                    more = false;
                },
                Some(len) => {
                    let reading = decode_line(slice_subrange(rest, 0, len));
                    proof {
                        assert(rest@.skip(len + 1) =~= all.skip(pos + len + 1));
                    }
                    pos = pos + len + 1;
                    if reading.is_some() {
                        found = reading;
                        more = false;
                    }
                },
            }
        }
        let tail = self.pending.split_off(pos);
        self.pending = tail;
        match found {
            Some(reading) => DecoderAction::Emit(reading),
            None => DecoderAction::CheckCancel,
        }
    }
}

} // verus!
