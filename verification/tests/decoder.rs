use serial_link::decoder::{
    DecoderAction, DecoderEvent, DecoderStatus, StopReason, StreamDecoder,
};
use serial_link::reading::RpmReading;

fn data(bytes: &[u8]) -> DecoderEvent {
    DecoderEvent::Data(bytes.to_vec())
}

fn emit(first: u16, second: u16) -> DecoderAction {
    DecoderAction::Emit(RpmReading { timestamp: Vec::new(), values: [first, second] })
}

/// Feeds the chunks to a fresh decoder the way a caller with a willing sink does, and
/// collects what is emitted.
fn run(chunks: &[&[u8]]) -> (Vec<[u16; 2]>, StreamDecoder) {
    let mut decoder = StreamDecoder::new();
    let mut out = Vec::new();
    for chunk in chunks {
        assert_eq!(decoder.step(DecoderEvent::Cancel(false)), DecoderAction::Read);
        let mut action = decoder.step(data(chunk));
        loop {
            match action {
                DecoderAction::Emit(reading) => {
                    out.push(reading.values);
                    action = decoder.step(DecoderEvent::Delivered);
                },
                DecoderAction::CheckCancel => break,
                other => panic!("unexpected action {:?}", other),
            }
        }
    }
    (out, decoder)
}

#[test]
fn a_new_decoder_runs_with_nothing_pending() {
    let decoder = StreamDecoder::new();
    assert_eq!(decoder.status(), DecoderStatus::Running);
    assert_eq!(decoder.pending_len(), 0);
}

#[test]
fn one_reading_then_garbage_then_cancellation() {
    let mut decoder = StreamDecoder::new();
    assert_eq!(decoder.step(DecoderEvent::Cancel(false)), DecoderAction::Read);
    assert_eq!(decoder.step(data(b"RPM1: 10;RPM2: 20\n")), emit(10, 20));
    assert_eq!(decoder.step(DecoderEvent::Delivered), DecoderAction::CheckCancel);
    assert_eq!(decoder.step(DecoderEvent::Cancel(false)), DecoderAction::Read);
    assert_eq!(decoder.step(data(b"garbage\n")), DecoderAction::CheckCancel);
    assert_eq!(
        decoder.step(DecoderEvent::Cancel(true)),
        DecoderAction::Stop(StopReason::Cancelled)
    );
    assert_eq!(decoder.status(), DecoderStatus::Stopped(StopReason::Cancelled));
}

#[test]
fn well_formed_and_malformed_lines_interleaved() {
    let stream: &[u8] =
        b"junk\nRPM1: 1;RPM2: 2\n\nRPM1: x;RPM2: 2\nRPM1: 3;RPM2: 4\nRPM1: 5\nRPM1: 6;RPM2: 7\nmore";
    let (out, decoder) = run(&[stream]);
    assert_eq!(out, vec![[1, 2], [3, 4], [6, 7]]);
    assert_eq!(decoder.pending_len(), 4);
}

#[test]
fn the_cut_of_the_reads_does_not_matter() {
    let stream: &[u8] = b"junk\nRPM1: 1;RPM2: 2\nRPM1: 3;RPM2: 4\r\nbad\nRPM1: 5;RPM2: 6\n";
    let (whole, _) = run(&[stream]);
    assert_eq!(whole, vec![[1, 2], [3, 4], [5, 6]]);
    for cut in 0..=stream.len() {
        let (out, decoder) = run(&[&stream[..cut], &stream[cut..]]);
        assert_eq!(out, whole);
        assert_eq!(decoder.pending_len(), 0);
    }
    let bytes: Vec<&[u8]> = stream.chunks(1).collect();
    let (out, _) = run(&bytes);
    assert_eq!(out, whole);
}

#[test]
fn a_line_is_decoded_only_once_it_is_terminated() {
    let mut decoder = StreamDecoder::new();
    assert_eq!(decoder.step(data(b"RPM1: 10;RPM2: 2")), DecoderAction::CheckCancel);
    assert_eq!(decoder.pending_len(), 16);
    assert_eq!(decoder.step(data(b"0")), DecoderAction::CheckCancel);
    assert_eq!(decoder.step(data(b"\n")), emit(10, 20));
    assert_eq!(decoder.pending_len(), 0);
}

#[test]
fn readings_of_one_read_are_emitted_one_by_one() {
    let mut decoder = StreamDecoder::new();
    assert_eq!(decoder.step(data(b"RPM1: 1;RPM2: 2\nRPM1: 3;RPM2: 4\n")), emit(1, 2));
    assert_eq!(decoder.step(DecoderEvent::Delivered), emit(3, 4));
    assert_eq!(decoder.step(DecoderEvent::Delivered), DecoderAction::CheckCancel);
}

#[test]
fn an_empty_read_changes_nothing() {
    let mut decoder = StreamDecoder::new();
    assert_eq!(decoder.step(data(b"RPM1: 1;")), DecoderAction::CheckCancel);
    assert_eq!(decoder.step(data(b"")), DecoderAction::CheckCancel);
    assert_eq!(decoder.pending_len(), 8);
    assert_eq!(decoder.status(), DecoderStatus::Running);
}

#[test]
fn a_timeout_leads_back_to_the_cancellation_flag() {
    let mut decoder = StreamDecoder::new();
    assert_eq!(decoder.step(DecoderEvent::TimedOut), DecoderAction::CheckCancel);
    assert_eq!(decoder.status(), DecoderStatus::Running);
}

#[test]
fn a_failed_read_ends_the_session() {
    let mut decoder = StreamDecoder::new();
    assert_eq!(decoder.step(data(b"RPM1: 1;")), DecoderAction::CheckCancel);
    assert_eq!(
        decoder.step(DecoderEvent::ReadFailed),
        DecoderAction::Stop(StopReason::LinkFailed)
    );
    assert_eq!(decoder.status(), DecoderStatus::Stopped(StopReason::LinkFailed));
    assert_eq!(decoder.pending_len(), 0);
}

#[test]
fn a_sink_that_refuses_ends_the_session() {
    let mut decoder = StreamDecoder::new();
    assert_eq!(decoder.step(data(b"RPM1: 1;RPM2: 2\nRPM1: 3;RPM2: 4\n")), emit(1, 2));
    assert_eq!(
        decoder.step(DecoderEvent::Rejected),
        DecoderAction::Stop(StopReason::SinkUnavailable)
    );
    assert_eq!(decoder.status(), DecoderStatus::Stopped(StopReason::SinkUnavailable));
}

#[test]
fn a_stopped_session_stays_stopped() {
    let mut decoder = StreamDecoder::new();
    decoder.step(DecoderEvent::Cancel(true));
    let stop = DecoderAction::Stop(StopReason::Cancelled);
    assert_eq!(decoder.step(data(b"RPM1: 1;RPM2: 2\n")), stop);
    assert_eq!(decoder.step(DecoderEvent::Delivered), stop);
    assert_eq!(decoder.step(DecoderEvent::Cancel(false)), stop);
    assert_eq!(decoder.step(DecoderEvent::TimedOut), stop);
    assert_eq!(decoder.step(DecoderEvent::ReadFailed), stop);
    assert_eq!(decoder.step(DecoderEvent::Rejected), stop);
    assert_eq!(decoder.pending_len(), 0);
}

#[test]
fn events_out_of_turn_lose_no_reading() {
    let mut decoder = StreamDecoder::new();
    assert_eq!(decoder.step(data(b"RPM1: 1;RPM2: 2\nRPM1: 3;RPM2: 4\n")), emit(1, 2));
    assert_eq!(decoder.step(DecoderEvent::Cancel(false)), DecoderAction::Read);
    assert_eq!(decoder.step(data(b"RPM1: 5;RPM2: 6\n")), emit(3, 4));
    assert_eq!(decoder.step(DecoderEvent::Delivered), emit(5, 6));
    assert_eq!(decoder.step(DecoderEvent::Delivered), DecoderAction::CheckCancel);
}

#[test]
fn the_stamp_is_handed_on() {
    let mut decoder = StreamDecoder::new();
    let action = decoder.step(data(b"t=17 RPM1: 1;RPM2: 2\r\n"));
    assert_eq!(
        action,
        DecoderAction::Emit(RpmReading { timestamp: b"t=17".to_vec(), values: [1, 2] })
    );
}
