//! Telemetry readings and the grammar of one telemetry line.
//!
//! A line carries two channels and, in front of them, an optional time stamp of the
//! device:
//!
//! ```text
//! line   = blanks [stamp] "RPM1:" field ";" "RPM2:" field
//! field  = blanks ["+"] digit {digit} blanks        (value at most 65535)
//! ```
//!
//! The stamp is whatever stands before the first `RPM1:`, without the blanks around
//! it. Blanks may also surround `RPM2:`. A line has exactly one `;` behind the first
//! `RPM1:`. Any other line is malformed and yields no reading.

use crate::text::{
    decimal_text, find, first_match, free_of, is_digit, law_decimal_text_reads_back,
    lemma_first_byte_at, lemma_first_match, lemma_first_match_at, lemma_no_byte,
    lemma_trimmed_after_space, lemma_trimmed_tight, matches_at, occurs_at, one, parse_u16,
    parsed_u16, tight, trim, trimmed, SEMICOLON, SPACE,
};
use vstd::prelude::*;
use vstd::slice::{slice_subrange, slice_to_vec};

verus! {

/// Label of the first channel.
pub open spec fn rpm1_label() -> Seq<u8> {
    seq!['R' as u8, 'P' as u8, 'M' as u8, '1' as u8, ':' as u8]
}

/// Label of the second channel.
pub open spec fn rpm2_label() -> Seq<u8> {
    seq!['R' as u8, 'P' as u8, 'M' as u8, '2' as u8, ':' as u8]
}

/// The separator between the two channels, as a pattern.
pub open spec fn separator() -> Seq<u8> {
    one(SEMICOLON)
}

/// One decoded telemetry line.
#[derive(Debug, Clone, PartialEq, Eq)]
pub struct RpmReading {
    /// Time stamp as the device wrote it; empty where the line carries none.
    pub timestamp: Vec<u8>,
    /// Channel values, first channel first.
    pub values: [u16; 2],
}

/// Mathematical value of an [`RpmReading`].
pub struct RpmReadingView {
    pub timestamp: Seq<u8>,
    pub values: Seq<u16>,
}

impl View for RpmReading {
    type V = RpmReadingView;

    open spec fn view(&self) -> RpmReadingView {
        RpmReadingView { timestamp: self.timestamp@, values: self.values@ }
    }
}

/// The value of the channel that `part` holds under `label`: `part` without the blanks
/// around it starts with `label`, and the rest, again without blanks, is the field.
pub open spec fn channel_field(part: Seq<u8>, label: Seq<u8>) -> Option<u16> {
    let text = trimmed(part);
    if occurs_at(text, label, 0) {
        parsed_u16(trimmed(text.skip(label.len() as int)))
    } else {
        None
    }
}

/// The reading that the line `raw` carries, if it is well formed.
pub open spec fn decoded_line(raw: Seq<u8>) -> Option<RpmReadingView> {
    let line = trimmed(raw);
    match first_match(line, rpm1_label()) {
        None => None,
        Some(start) => {
            let data = line.skip(start);
            match first_match(data, separator()) {
                None => None,
                Some(cut) => {
                    let left = data.take(cut);
                    let right = data.skip(cut + 1);
                    if first_match(right, separator()) is Some {
                        None
                    } else {
                        match (
                            channel_field(left, rpm1_label()),
                            channel_field(right, rpm2_label()),
                        ) {
                            (Some(first), Some(second)) => Some(
                                RpmReadingView {
                                    timestamp: trimmed(line.take(start)),
                                    values: seq![first, second],
                                },
                            ),
                            _ => None,
                        }
                    }
                },
            }
        },
    }
}

/// The label of the first channel.
pub fn rpm1_label_bytes() -> (r: [u8; 5])
    ensures
        r@ == rpm1_label(),
{
    let r: [u8; 5] = ['R' as u8, 'P' as u8, 'M' as u8, '1' as u8, ':' as u8];
    r
}

/// The label of the second channel.
pub fn rpm2_label_bytes() -> (r: [u8; 5])
    ensures
        r@ == rpm2_label(),
{
    let r: [u8; 5] = ['R' as u8, 'P' as u8, 'M' as u8, '2' as u8, ':' as u8];
    r
}

/// Reads the channel that `part` holds under `label`.
pub fn channel_value(part: &[u8], label: &[u8]) -> (r: Option<u16>)
    ensures
        r == channel_field(part@, label@),
{
    let text = trim(part);
    if matches_at(text, label, 0) {
        parse_u16(trim(slice_subrange(text, label.len(), text.len())))
    } else {
        None
    }
}

/// Decodes one line, given without its terminator.
pub fn decode_line(raw: &[u8]) -> (r: Option<RpmReading>)
    ensures
        match r {
            Some(reading) => decoded_line(raw@) == Some(reading@),
            None => decoded_line(raw@) is None,
        },
{
    let line = trim(raw);
    let label1 = rpm1_label_bytes();
    let label2 = rpm2_label_bytes();
    let sep: [u8; 1] = [SEMICOLON];
    proof {
        assert(sep@ =~= separator());
    }
    let start = match find(line, label1.as_slice()) {
        Some(start) => start,
        None => {
            return None;
        },
    };
    proof {
        lemma_first_match(line@, rpm1_label());
    }
    let stamp = trim(slice_subrange(line, 0, start));
    let data = slice_subrange(line, start, line.len());
    let cut = match find(data, sep.as_slice()) {
        Some(cut) => cut,
        None => {
            return None;
        },
    };
    proof {
        lemma_first_match(data@, separator());
    }
    let left = slice_subrange(data, 0, cut);
    let right = slice_subrange(data, cut + 1, data.len());
    if find(right, sep.as_slice()).is_some() {
        return None;
    }
    let first = match channel_value(left, label1.as_slice()) {
        Some(first) => first,
        None => {
            return None;
        },
    };
    let second = match channel_value(right, label2.as_slice()) {
        Some(second) => second,
        None => {
            return None;
        },
    };
    let values: [u16; 2] = [first, second];
    Some(RpmReading { timestamp: slice_to_vec(stamp), values })
}

/// One channel as the device writes it: the label, a space, the value.
pub open spec fn channel_text(label: Seq<u8>, value: u16) -> Seq<u8> {
    label + one(SPACE) + decimal_text(value as nat)
}

/// The line that the device writes for two channel values, without a time stamp.
pub open spec fn plain_line(first: u16, second: u16) -> Seq<u8> {
    channel_text(rpm1_label(), first) + separator() + channel_text(rpm2_label(), second)
}

/// A channel as the device writes it holds no separator, is tight, and reads back
/// under its label as its value.
pub proof fn lemma_channel_text_reads_back(label: Seq<u8>, value: u16)
    requires
        label == rpm1_label() || label == rpm2_label(),
    ensures
        channel_field(channel_text(label, value), label) == Some(value),
        free_of(channel_text(label, value), SEMICOLON),
        tight(channel_text(label, value)),
        channel_text(label, value).len() > label.len(),
{
    let digits = decimal_text(value as nat);
    let text = channel_text(label, value);
    law_decimal_text_reads_back(value as nat, u16::MAX as nat);
    lemma_trimmed_tight(text);
    lemma_trimmed_tight(digits);
    lemma_trimmed_after_space(digits);
    assert(text.subrange(0, label.len() as int) =~= label);
    assert(text.skip(label.len() as int) =~= one(SPACE) + digits);
}

/// Law of the line. The line that the device writes for two channel values decodes to
/// a reading of those values, in their order, with an empty time stamp.
pub proof fn law_plain_line_decodes(first: u16, second: u16)
    ensures
        decoded_line(plain_line(first, second)) == Some(
            RpmReadingView { timestamp: Seq::empty(), values: seq![first, second] },
        ),
{
    let left = channel_text(rpm1_label(), first);
    let right = channel_text(rpm2_label(), second);
    let line = plain_line(first, second);
    let cut = left.len() as int;
    lemma_channel_text_reads_back(rpm1_label(), first);
    lemma_channel_text_reads_back(rpm2_label(), second);
    lemma_trimmed_tight(line);
    assert(line.subrange(0, rpm1_label().len() as int) =~= rpm1_label());
    lemma_first_match_at(line, rpm1_label(), 0);
    assert(line.skip(0) =~= line);
    assert(line.take(cut) =~= left);
    assert(line.skip(cut + 1) =~= right);
    lemma_first_byte_at(line, SEMICOLON, cut);
    lemma_no_byte(right, SEMICOLON);
    assert(line.take(0) =~= Seq::<u8>::empty());
    lemma_trimmed_tight(line.take(0));
}

} // verus!
