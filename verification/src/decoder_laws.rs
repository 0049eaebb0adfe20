//! What holds of every decoding session: the readings issued are those of the lines
//! received, in the order of the lines, however the bytes were cut into reads.

use crate::decoder::{
    decoder_step, initial_state, resolved, unterminated_tail, DecoderActionView,
    DecoderEventView, DecoderState, DecoderStatus,
};
use crate::reading::{decoded_line, RpmReadingView};
use crate::text::{
    first_match, free_of, lemma_first_byte, lemma_first_byte_at, lemma_no_byte, line_end, NEWLINE,
};
use vstd::prelude::*;

verus! {

/// The readings of the complete lines of `buf`, in the order of the lines. A malformed
/// line contributes nothing, and neither does what follows the last terminator.
pub open spec fn readings(buf: Seq<u8>) -> Seq<RpmReadingView>
    decreases buf.len(),
{
    match first_match(buf, line_end()) {
        None => Seq::empty(),
        Some(end) => {
            if 0 <= end < buf.len() {
                let later = readings(buf.skip(end + 1));
                match decoded_line(buf.take(end)) {
                    Some(reading) => seq![reading] + later,
                    None => later,
                }
            } else {
                Seq::empty()
            }
        },
    }
}

/// The stream in which each of `lines` is followed by a line terminator.
pub open spec fn joined(lines: Seq<Seq<u8>>) -> Seq<u8>
    decreases lines.len(),
{
    if lines.len() == 0 {
        Seq::empty()
    } else {
        lines[0] + line_end() + joined(lines.drop_first())
    }
}

/// The readings of the well-formed lines among `lines`, in the order of the lines.
pub open spec fn decoded_lines(lines: Seq<Seq<u8>>) -> Seq<RpmReadingView>
    decreases lines.len(),
{
    if lines.len() == 0 {
        Seq::empty()
    } else {
        let later = decoded_lines(lines.drop_first());
        match decoded_line(lines[0]) {
            Some(reading) => seq![reading] + later,
            None => later,
        }
    }
}

/// How many of `lines` are well formed.
pub open spec fn well_formed_count(lines: Seq<Seq<u8>>) -> nat
    decreases lines.len(),
{
    if lines.len() == 0 {
        0
    } else if decoded_line(lines[0]) is Some {
        1 + well_formed_count(lines.drop_first())
    } else {
        well_formed_count(lines.drop_first())
    }
}

/// Whether `s` holds no line terminator.
pub open spec fn unterminated(s: Seq<u8>) -> bool {
    free_of(s, NEWLINE)
}

/// The reading that an action hands to the sink, as a sequence of at most one.
pub open spec fn issued(action: DecoderActionView) -> Seq<RpmReadingView> {
    match action {
        DecoderActionView::Emit(reading) => seq![reading],
        _ => Seq::empty(),
    }
}

/// The bytes that an event brings.
pub open spec fn payload(event: DecoderEventView) -> Seq<u8> {
    match event {
        DecoderEventView::Data(bytes) => bytes,
        _ => Seq::empty(),
    }
}

/// All bytes that `events` bring, in order.
pub open spec fn received(events: Seq<DecoderEventView>) -> Seq<u8>
    decreases events.len(),
{
    if events.len() == 0 {
        Seq::empty()
    } else {
        payload(events[0]) + received(events.drop_first())
    }
}

/// The state that `events` lead to from `state`, and the readings issued on the way.
pub open spec fn replay(state: DecoderState, events: Seq<DecoderEventView>) -> (
    DecoderState,
    Seq<RpmReadingView>,
)
    decreases events.len(),
{
    if events.len() == 0 {
        (state, Seq::empty())
    } else {
        let (next, action) = decoder_step(state, events[0]);
        let (last, later) = replay(next, events.drop_first());
        (last, issued(action) + later)
    }
}

/// The first line of a stream stays its first line when more bytes follow.
pub proof fn lemma_first_line_with_more(buf: Seq<u8>, more: Seq<u8>)
    requires
        first_match(buf, line_end()) is Some,
    ensures
        first_match(buf + more, line_end()) == first_match(buf, line_end()),
        ({
            let end = first_match(buf, line_end())->0;
            &&& 0 <= end < buf.len()
            &&& (buf + more).take(end) == buf.take(end)
            &&& (buf + more).skip(end + 1) == buf.skip(end + 1) + more
        }),
{
    let end = first_match(buf, line_end())->0;
    lemma_first_byte(buf, NEWLINE);
    let whole = buf + more;
    assert(whole.take(end) =~= buf.take(end));
    lemma_first_byte_at(whole, NEWLINE, end);
}

/// Resolving an accumulator and then seeing more bytes yields, in all, the readings of
/// the accumulator with those bytes behind it.
pub proof fn lemma_resolved_with_more(buf: Seq<u8>, more: Seq<u8>)
    ensures
        ({
            let (next, action) = resolved(buf);
            &&& next.status == DecoderStatus::Running
            &&& issued(action) + readings(next.pending + more) == readings(buf + more)
            &&& unterminated_tail(next.pending + more) == unterminated_tail(buf + more)
            &&& action is CheckCancel || action is Emit
            &&& action is CheckCancel ==> unterminated(next.pending)
        }),
    decreases buf.len(),
{
    lemma_first_byte(buf, NEWLINE);
    if first_match(buf, line_end()) is Some {
        let end = first_match(buf, line_end())->0;
        lemma_first_line_with_more(buf, more);
        if decoded_line(buf.take(end)) is None {
            lemma_resolved_with_more(buf.skip(end + 1), more);
        }
    }
}

/// Once a session has stopped, no event changes it and nothing more is issued.
pub proof fn lemma_replay_stopped(state: DecoderState, events: Seq<DecoderEventView>)
    requires
        state.status is Stopped,
    ensures
        replay(state, events) == (state, Seq::<RpmReadingView>::empty()),
    decreases events.len(),
{
    if events.len() > 0 {
        lemma_replay_stopped(state, events.drop_first());
    }
}

/// Law of the cut. Where a stream is cut in two does not matter: its readings are the
/// readings of the first part, followed by the readings of what the first part leaves
/// unterminated with the second part behind it. So the readings of a stream begin
/// with the readings of each of its prefixes.
pub proof fn law_cut_does_not_matter(buf: Seq<u8>, more: Seq<u8>)
    ensures
        readings(buf + more) == readings(buf) + readings(unterminated_tail(buf) + more),
        unterminated_tail(buf + more) == unterminated_tail(unterminated_tail(buf) + more),
        readings(buf).is_prefix_of(readings(buf + more)),
    decreases buf.len(),
{
    lemma_first_byte(buf, NEWLINE);
    if first_match(buf, line_end()) is Some {
        let end = first_match(buf, line_end())->0;
        lemma_first_line_with_more(buf, more);
        law_cut_does_not_matter(buf.skip(end + 1), more);
    }
}

/// From a running state, what is issued along any sequence of events is a prefix of
/// the readings of the accumulator followed by the bytes received; while the session
/// runs, the rest is still in the accumulator.
pub proof fn lemma_replay_running(state: DecoderState, events: Seq<DecoderEventView>)
    requires
        state.status == DecoderStatus::Running,
    ensures
        ({
            let (last, out) = replay(state, events);
            let all = state.pending + received(events);
            &&& out.is_prefix_of(readings(all))
            &&& last.status == DecoderStatus::Running ==> {
                &&& out + readings(last.pending) == readings(all)
                &&& unterminated_tail(last.pending) == unterminated_tail(all)
            }
        }),
    decreases events.len(),
{
    if events.len() > 0 {
        let rest = events.drop_first();
        let more = received(rest);
        let next = decoder_step(state, events[0]).0;
        if next.status is Stopped {
            lemma_replay_stopped(next, rest);
        } else {
            lemma_replay_running(next, rest);
            match events[0] {
                DecoderEventView::Data(bytes) => {
                    lemma_resolved_with_more(state.pending + bytes, more);
                    assert((state.pending + bytes) + more =~= state.pending + received(events));
                },
                DecoderEventView::Delivered => {
                    lemma_resolved_with_more(state.pending, more);
                },
                _ => {},
            }
        }
    }
}

/// Law of the session. Whatever the caller reports and in whatever order, from the
/// start of a session on, the readings issued are the first readings of the stream
/// received so far, in the order of its lines: none is invented, repeated or moved.
/// While the session runs nothing is lost either: the readings not yet issued are
/// those of the accumulator, so that once the accumulator holds no complete line every
/// reading of the stream has been issued.
pub proof fn law_session_issues_stream_readings(events: Seq<DecoderEventView>)
    ensures
        ({
            let (last, out) = replay(initial_state(), events);
            let stream = received(events);
            &&& out.is_prefix_of(readings(stream))
            &&& last.status == DecoderStatus::Running ==> {
                &&& out + readings(last.pending) == readings(stream)
                &&& unterminated_tail(last.pending) == unterminated_tail(stream)
                &&& unterminated(last.pending) ==> out == readings(stream)
            }
        }),
{
    lemma_replay_running(initial_state(), events);
    let last = replay(initial_state(), events).0;
    if last.status == DecoderStatus::Running && unterminated(last.pending) {
        lemma_no_byte(last.pending, NEWLINE);
    }
}

/// Law of the turn. The decoder asks for the cancellation flag after a read or a
/// delivery only when the accumulator holds no complete line any more.
pub proof fn law_check_cancel_when_resolved(state: DecoderState, event: DecoderEventView)
    requires
        state.status == DecoderStatus::Running,
        event is Data || event is Delivered,
    ensures
        ({
            let (next, action) = decoder_step(state, event);
            &&& action is Emit || action is CheckCancel
            &&& next.status == DecoderStatus::Running
            &&& action is CheckCancel ==> unterminated(next.pending)
        }),
{
    lemma_resolved_with_more(state.pending + payload(event), Seq::empty());
}

/// Law of the lines. A stream made of complete lines, well formed and malformed in any
/// order, followed by the beginning of a further line, has exactly the readings of its
/// well-formed lines, in their order; the malformed lines yield nothing, and the
/// unfinished line stays behind.
pub proof fn law_readings_of_lines(lines: Seq<Seq<u8>>, partial: Seq<u8>)
    requires
        forall|i: int| 0 <= i < lines.len() ==> unterminated(#[trigger] lines[i]),
        unterminated(partial),
    ensures
        readings(joined(lines) + partial) == decoded_lines(lines),
        unterminated_tail(joined(lines) + partial) == partial,
        decoded_lines(lines).len() == well_formed_count(lines),
        well_formed_count(lines) <= lines.len(),
    decreases lines.len(),
{
    if lines.len() == 0 {
        lemma_no_byte(partial, NEWLINE);
    } else {
        let line = lines[0];
        let rest = lines.drop_first();
        let stream = joined(lines) + partial;
        let end = line.len() as int;
        law_readings_of_lines(rest, partial);
        assert(stream.take(end) =~= line);
        assert(stream.skip(end + 1) =~= joined(rest) + partial);
        lemma_first_byte_at(stream, NEWLINE, end);
    }
}

/// Law of the count. Let the stream received in a session be complete lines, well
/// formed and malformed in any order, followed by the beginning of a further line.
/// Then no more readings are issued than there are well-formed lines, each the reading
/// of a well-formed line and in the order of the lines. Once the session, still
/// running, holds no complete line in its accumulator, exactly one reading for each
/// well-formed line has been issued, none for a malformed line, and the accumulator
/// holds the unfinished line.
pub proof fn law_well_formed_lines_are_issued(
    events: Seq<DecoderEventView>,
    lines: Seq<Seq<u8>>,
    partial: Seq<u8>,
)
    requires
        received(events) == joined(lines) + partial,
        forall|i: int| 0 <= i < lines.len() ==> unterminated(#[trigger] lines[i]),
        unterminated(partial),
    ensures
        ({
            let (last, out) = replay(initial_state(), events);
            &&& out.is_prefix_of(decoded_lines(lines))
            &&& out.len() <= well_formed_count(lines)
            &&& well_formed_count(lines) <= lines.len()
            &&& last.status == DecoderStatus::Running && unterminated(last.pending) ==> {
                &&& out == decoded_lines(lines)
                &&& out.len() == well_formed_count(lines)
                &&& last.pending == partial
            }
        }),
{
    law_session_issues_stream_readings(events);
    law_readings_of_lines(lines, partial);
    let (last, _) = replay(initial_state(), events);
    if last.status == DecoderStatus::Running && unterminated(last.pending) {
        lemma_no_byte(last.pending, NEWLINE);
    }
}

} // verus!
