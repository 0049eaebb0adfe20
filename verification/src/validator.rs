//! The protocol validator: decides, within a bounded window, whether the device behind
//! a freshly opened port speaks the telemetry protocol.
//!
//! The device may be in the middle of a line when validation begins, so the marker is
//! looked for anywhere in what has arrived, and a line terminator is not waited for:
//! the input qualifies as soon as it holds `RPM1:` followed, after any spaces or tabs,
//! by an unsigned decimal field of at most 65535. The field is the longest run of
//! digits there, with an optional plus sign in front.
//!
//! The validator decides, the caller acts. Validation starts with the action
//! [`ValidatorAction::Read`]; the caller reports each outcome together with the time
//! that has passed since validation began.

use crate::reading::{rpm1_label, rpm1_label_bytes};
use crate::text::{
    is_digit, is_digit_byte, is_inline_blank, matches_at, occurs_at, parse_u16, parsed_u16, PLUS,
};
use vstd::prelude::*;
use vstd::slice::slice_subrange;

verus! {

/// Length of the validation window, in milliseconds.
pub const VALIDATION_WINDOW_MS: u64 = 5000;

/// Pause before the next read when a read brought nothing, in milliseconds.
pub const RETRY_PAUSE_MS: u64 = 50;

/// Why a port was rejected.
#[derive(Debug, Clone, Copy, PartialEq, Eq)]
pub enum RejectReason {
    /// The window elapsed and the input did not qualify.
    TimedOut,
    /// A read failed with an error other than "no data yet".
    LinkFailed,
}

/// The outcome of a validation.
#[derive(Debug, Clone, Copy, PartialEq, Eq)]
pub enum Verdict {
    Accepted,
    Rejected(RejectReason),
}

/// What the caller reports to the validator.
#[derive(Debug, PartialEq, Eq)]
pub enum ValidatorEvent {
    /// A read returned these bytes, possibly none.
    Data(Vec<u8>),
    /// A read would block or ran into its timeout.
    NoData,
    /// A read failed with another error.
    ReadFailed,
}

/// Mathematical value of a [`ValidatorEvent`].
pub enum ValidatorEventView {
    Data(Seq<u8>),
    NoData,
    ReadFailed,
}

impl View for ValidatorEvent {
    type V = ValidatorEventView;

    open spec fn view(&self) -> ValidatorEventView {
        match self {
            ValidatorEvent::Data(bytes) => ValidatorEventView::Data(bytes@),
            ValidatorEvent::NoData => ValidatorEventView::NoData,
            ValidatorEvent::ReadFailed => ValidatorEventView::ReadFailed,
        }
    }
}

/// What the validator asks the caller to do next.
#[derive(Debug, Clone, Copy, PartialEq, Eq)]
pub enum ValidatorAction {
    /// Read from the port and report the outcome.
    Read,
    /// Sleep for [`RETRY_PAUSE_MS`], then read and report the outcome.
    Pause,
    /// Validation is over: the device speaks the protocol.
    Accept,
    /// Validation is over: the port is not the one.
    Reject(RejectReason),
}

/// Mathematical value of a [`ProtocolValidator`].
pub struct ValidatorState {
    /// Everything read so far.
    pub seen: Seq<u8>,
    /// The verdict, once there is one.
    pub verdict: Option<Verdict>,
}

/// The marker that identifies the protocol: the label of the first channel.
pub open spec fn marker() -> Seq<u8> {
    rpm1_label()
}

/// Number of spaces and tabs at the start of `s`.
pub open spec fn inline_blanks(s: Seq<u8>) -> nat
    decreases s.len(),
{
    if s.len() > 0 && is_inline_blank(s[0]) {
        1 + inline_blanks(s.drop_first())
    } else {
        0
    }
}

/// Number of decimal digits at the start of `s`.
pub open spec fn leading_digits(s: Seq<u8>) -> nat
    decreases s.len(),
{
    if s.len() > 0 && is_digit(s[0]) {
        1 + leading_digits(s.drop_first())
    } else {
        0
    }
}

/// The longest prefix of `s` that is an optional plus sign followed by digits.
pub open spec fn numeral_prefix(s: Seq<u8>) -> Seq<u8> {
    let sign: int = if s.len() > 0 && s[0] == PLUS {
        1
    } else {
        0
    };
    s.take(sign + leading_digits(s.skip(sign)))
}

/// The value of the field with which `s` begins, after any spaces and tabs.
pub open spec fn leading_field(s: Seq<u8>) -> Option<u16> {
    parsed_u16(numeral_prefix(s.skip(inline_blanks(s) as int)))
}

/// Whether the marker stands in `buf` at index `i` with a field behind it.
pub open spec fn marker_at(buf: Seq<u8>, i: int) -> bool {
    occurs_at(buf, marker(), i) && leading_field(buf.skip(i + marker().len())) is Some
}

/// Whether `buf` shows that the device speaks the protocol.
pub open spec fn speaks_protocol(buf: Seq<u8>) -> bool {
    exists|i: int| marker_at(buf, i)
}

/// The state in which validation starts.
pub open spec fn initial_validation() -> ValidatorState {
    ValidatorState { seen: Seq::empty(), verdict: None }
}

/// The action that goes with a verdict.
pub open spec fn verdict_action(verdict: Verdict) -> ValidatorAction {
    match verdict {
        Verdict::Accepted => ValidatorAction::Accept,
        Verdict::Rejected(reason) => ValidatorAction::Reject(reason),
    }
}

/// The validator's transition: the state and the action that follow `event`, reported
/// `elapsed_ms` after validation began, in `state`.
///
/// A verdict, once reached, stands. Input that qualifies is accepted even where the
/// window has elapsed meanwhile; without it, the window decides whether to go on.
pub open spec fn validator_step(
    state: ValidatorState,
    elapsed_ms: u64,
    event: ValidatorEventView,
) -> (ValidatorState, ValidatorAction) {
    match state.verdict {
        Some(verdict) => (state, verdict_action(verdict)),
        None => {
            let seen = state.seen + payload(event);
            let verdict = if event is ReadFailed {
                Some(Verdict::Rejected(RejectReason::LinkFailed))
            } else if speaks_protocol(seen) {
                Some(Verdict::Accepted)
            } else if elapsed_ms >= VALIDATION_WINDOW_MS {
                Some(Verdict::Rejected(RejectReason::TimedOut))
            } else {
                None
            };
            let action = match verdict {
                Some(verdict) => verdict_action(verdict),
                None => if payload(event).len() == 0 {
                    ValidatorAction::Pause
                } else {
                    ValidatorAction::Read
                },
            };
            (ValidatorState { seen, verdict }, action)
        },
    }
}

/// The bytes that an event brings.
pub open spec fn payload(event: ValidatorEventView) -> Seq<u8> {
    match event {
        ValidatorEventView::Data(bytes) => bytes,
        _ => Seq::empty(),
    }
}

/// Tests for a space or a tab.
pub fn is_inline_blank_byte(b: u8) -> (r: bool)
    ensures
        r == is_inline_blank(b),
{
    b == 32 || b == 9
}

/// Reads the field with which `s` begins, after any spaces and tabs.
pub fn leading_number(s: &[u8]) -> (r: Option<u16>)
    ensures
        r == leading_field(s@),
{
    let mut start: usize = 0;
    proof {
        assert(s@.skip(0) =~= s@);
    }
    while start < s.len() && is_inline_blank_byte(s[start])
        invariant
            start <= s.len(),
            inline_blanks(s@) == start + inline_blanks(s@.skip(start as int)),
        decreases s.len() - start,
    {
        proof {
            assert(s@.skip(start as int).drop_first() =~= s@.skip(start + 1));
        }
        start += 1;
    }
    let text = slice_subrange(s, start, s.len());
    let sign: usize = if text.len() > 0 && text[0] == PLUS {
        1
    } else {
        0
    };
    let mut end: usize = sign;
    let ghost digits = text@.skip(sign as int);
    proof {
        assert(digits.skip(0) =~= digits);
    }
    while end < text.len() && is_digit_byte(text[end])
        invariant
            sign <= end <= text.len(),
            digits == text@.skip(sign as int),
            leading_digits(digits) == (end - sign) + leading_digits(digits.skip(end - sign)),
        decreases text.len() - end,
    {
        proof {
            assert(digits.skip(end - sign).drop_first() =~= digits.skip(end + 1 - sign));
        }
        end += 1;
    }
    parse_u16(slice_subrange(text, 0, end))
}

/// Tests whether `buf` shows that the device speaks the protocol.
pub fn speaks(buf: &[u8]) -> (r: bool)
    ensures
        r == speaks_protocol(buf@),
{
    let label = rpm1_label_bytes();
    let mut i: usize = 0;
    while i < buf.len()
        invariant
            i <= buf.len(),
            label@ == marker(),
            forall|j: int| 0 <= j < i ==> !#[trigger] marker_at(buf@, j),
        decreases buf.len() - i,
    {
        if matches_at(buf, label.as_slice(), i) {
            let behind = slice_subrange(buf, i + label.len(), buf.len());
            if leading_number(behind).is_some() {
                proof {
                    assert(marker_at(buf@, i as int));
                }
                return true;
            }
        }
        i += 1;
    }
    false
}

/// The validator of one port.
#[derive(Debug)]
pub struct ProtocolValidator {
    seen: Vec<u8>,
    verdict: Option<Verdict>,
}

impl View for ProtocolValidator {
    type V = ValidatorState;

    closed spec fn view(&self) -> ValidatorState {
        ValidatorState { seen: self.seen@, verdict: self.verdict }
    }
}

impl ProtocolValidator {
    /// A validator at the start of a validation: nothing read, no verdict.
    pub fn new() -> (validator: Self)
        ensures
            validator@ == initial_validation(),
    {
        ProtocolValidator { seen: Vec::new(), verdict: None }
    }

    /// The verdict, once there is one.
    pub fn verdict(&self) -> (verdict: Option<Verdict>)
        ensures
            verdict == self@.verdict,
    {
        self.verdict
    }

    /// Takes one event, reported `elapsed_ms` after validation began, and answers with
    /// the next action.
    pub fn step(&mut self, elapsed_ms: u64, event: ValidatorEvent) -> (action: ValidatorAction)
        ensures
            (final(self)@, action) == validator_step(old(self)@, elapsed_ms, event@),
    {
        match self.verdict {
            Some(Verdict::Accepted) => {
                return ValidatorAction::Accept;
            },
            Some(Verdict::Rejected(reason)) => {
                return ValidatorAction::Reject(reason);
            },
            None => {},
        }
        let mut brought: usize = 0;
        let mut failed: bool = false;
        match event {
            ValidatorEvent::Data(bytes) => {
                let mut bytes = bytes;
                brought = bytes.len();
                self.seen.append(&mut bytes);
            },
            ValidatorEvent::NoData => {},
            ValidatorEvent::ReadFailed => {
                failed = true;
            },
        }
        if failed {
            self.verdict = Some(Verdict::Rejected(RejectReason::LinkFailed));
            ValidatorAction::Reject(RejectReason::LinkFailed)
        } else if speaks(self.seen.as_slice()) {
            self.verdict = Some(Verdict::Accepted);
            ValidatorAction::Accept
        } else if elapsed_ms >= VALIDATION_WINDOW_MS {
            self.verdict = Some(Verdict::Rejected(RejectReason::TimedOut));
            ValidatorAction::Reject(RejectReason::TimedOut)
        } else if brought == 0 {
            ValidatorAction::Pause
        } else {
            ValidatorAction::Read
        }
    }
}

} // verus!
