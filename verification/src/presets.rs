//! The preset file: named speeds, one to a line.
//!
//! ```text
//! file  = { line }
//! line  = "NAME: " name TAB "RPM: " field ( LF | CR LF )
//! field = ["+"] digit {digit}                          (value below 2^32)
//! ```
//!
//! The last line may lack its terminator. A line that does not fit, for one because
//! it holds a second tab, is passed over. This module turns the contents of the file
//! into presets and back; reading and writing the file is left to the caller.

use crate::text::{
    decimal_text, find, first_match, free_of, law_decimal_text_reads_back,
    lemma_first_byte_at, lemma_first_match, lemma_no_byte, line_end, matches_at, occurs_at, one,
    parse_u32, parsed_u32, render_decimal, NEWLINE,
};
use vstd::prelude::*;
use vstd::slice::{slice_subrange, slice_to_vec};
use vstd::string::StringSliceAdditionalSpecFns;

verus! {

/// Separator between the name and the speed of a preset.
pub const TAB: u8 = '\t' as u8;

/// The byte that may stand before a line terminator.
pub const CARRIAGE_RETURN: u8 = '\r' as u8;

/// A named speed.
#[derive(Debug, PartialEq, Eq)]
pub struct Preset {
    pub name: Vec<u8>,
    pub rpm: u32,
}

/// A named speed as a user enters it.
#[derive(Debug, PartialEq, Eq)]
pub struct PresetInput {
    pub name: Vec<u8>,
    pub rpm: u32,
}

/// Mathematical value of a [`Preset`] and of a [`PresetInput`].
pub struct PresetView {
    pub name: Seq<u8>,
    pub rpm: u32,
}

impl View for Preset {
    type V = PresetView;

    open spec fn view(&self) -> PresetView {
        PresetView { name: self.name@, rpm: self.rpm }
    }
}

impl DeepView for Preset {
    type V = PresetView;

    open spec fn deep_view(&self) -> PresetView {
        self@
    }
}

impl View for PresetInput {
    type V = PresetView;

    open spec fn view(&self) -> PresetView {
        PresetView { name: self.name@, rpm: self.rpm }
    }
}

/// The label in front of a name.
pub open spec fn name_label() -> Seq<u8> {
    seq!['N' as u8, 'A' as u8, 'M' as u8, 'E' as u8, ':' as u8, ' ' as u8]
}

/// The label in front of a speed.
pub open spec fn rpm_label() -> Seq<u8> {
    seq!['R' as u8, 'P' as u8, 'M' as u8, ':' as u8, ' ' as u8]
}

/// The separator between name and speed, as a pattern.
pub open spec fn tab() -> Seq<u8> {
    one(TAB)
}

/// The text that holds `preset`.
pub open spec fn preset_text(preset: PresetView) -> Seq<u8> {
    name_label() + preset.name + tab() + rpm_label() + decimal_text(preset.rpm as nat)
}

/// The line that holds `preset`, with its terminator.
pub open spec fn preset_line(preset: PresetView) -> Seq<u8> {
    preset_text(preset) + line_end()
}

/// Whether a name can stand in the file: it holds neither a tab nor a line feed.
pub open spec fn plain_name(name: Seq<u8>) -> bool {
    free_of(name, TAB) && free_of(name, NEWLINE)
}

/// The contents of a file that holds `presets`, in order.
pub open spec fn rendered(presets: Seq<PresetView>) -> Seq<u8>
    decreases presets.len(),
{
    if presets.len() == 0 {
        Seq::empty()
    } else {
        rendered(presets.drop_last()) + preset_line(presets.last())
    }
}

/// The preset that `line`, given without its terminator, holds.
pub open spec fn parsed_preset(line: Seq<u8>) -> Option<PresetView> {
    match first_match(line, tab()) {
        None => None,
        Some(cut) => {
            let left = line.take(cut);
            let right = line.skip(cut + 1);
            if first_match(right, tab()) is None && occurs_at(left, name_label(), 0) && occurs_at(
                right,
                rpm_label(),
                0,
            ) {
                match parsed_u32(right.skip(rpm_label().len() as int)) {
                    Some(rpm) => Some(
                        PresetView { name: left.skip(name_label().len() as int), rpm },
                    ),
                    None => None,
                }
            } else {
                None
            }
        },
    }
}

/// `line` without a carriage return at its end.
pub open spec fn without_return(line: Seq<u8>) -> Seq<u8> {
    if line.len() > 0 && line.last() == CARRIAGE_RETURN {
        line.drop_last()
    } else {
        line
    }
}

/// At most one preset as a sequence.
pub open spec fn optional(preset: Option<PresetView>) -> Seq<PresetView> {
    match preset {
        Some(preset) => seq![preset],
        None => Seq::empty(),
    }
}

/// The presets that a file with these contents holds, in the order of its lines.
pub open spec fn parsed_presets(contents: Seq<u8>) -> Seq<PresetView>
    decreases contents.len(),
{
    if contents.len() == 0 {
        Seq::empty()
    } else {
        match first_match(contents, line_end()) {
            Some(end) if 0 <= end < contents.len() => optional(
                parsed_preset(without_return(contents.take(end))),
            ) + parsed_presets(contents.skip(end + 1)),
            _ => optional(parsed_preset(contents)),
        }
    }
}

/// `presets` without those of speed `rpm`.
pub open spec fn without_rpm(presets: Seq<PresetView>, rpm: u32) -> Seq<PresetView> {
    presets.filter(|preset: PresetView| preset.rpm != rpm)
}

/// The presets of a fresh file.
pub open spec fn default_table() -> Seq<PresetView> {
    seq![
        PresetView { name: "Very Slow".spec_bytes(), rpm: 25 },
        PresetView { name: "Slow".spec_bytes(), rpm: 50 },
        PresetView { name: "Medium Slow".spec_bytes(), rpm: 75 },
        PresetView { name: "Medium".spec_bytes(), rpm: 100 },
        PresetView { name: "Medium Fast".spec_bytes(), rpm: 125 },
        PresetView { name: "Fast".spec_bytes(), rpm: 150 },
        PresetView { name: "Very Fast".spec_bytes(), rpm: 175 },
        PresetView { name: "Maximum".spec_bytes(), rpm: 200 },
    ]
}

/// The label in front of a name.
pub fn name_label_bytes() -> (r: [u8; 6])
    ensures
        r@ == name_label(),
{
    let r: [u8; 6] = ['N' as u8, 'A' as u8, 'M' as u8, 'E' as u8, ':' as u8, ' ' as u8];
    r
}

/// The label in front of a speed.
pub fn rpm_label_bytes() -> (r: [u8; 5])
    ensures
        r@ == rpm_label(),
{
    let r: [u8; 5] = ['R' as u8, 'P' as u8, 'M' as u8, ':' as u8, ' ' as u8];
    r
}

/// Reads the preset that `line`, given without its terminator, holds.
pub fn parse_preset(line: &[u8]) -> (r: Option<Preset>)
    ensures
        match r {
            Some(preset) => parsed_preset(line@) == Some(preset@),
            None => parsed_preset(line@) is None,
        },
{
    let sep: [u8; 1] = [TAB];
    proof {
        assert(sep@ =~= tab());
    }
    let cut = match find(line, sep.as_slice()) {
        Some(cut) => cut,
        None => {
            return None;
        },
    };
    proof {
        lemma_first_match(line@, tab());
    }
    let len: usize = line.len();
    let left = slice_subrange(line, 0, cut);
    let right = slice_subrange(line, cut + 1, len);
    if find(right, sep.as_slice()).is_some() {
        return None;
    }
    let name_label = name_label_bytes();
    let rpm_label = rpm_label_bytes();
    if !matches_at(left, name_label.as_slice(), 0) || !matches_at(right, rpm_label.as_slice(), 0) {
        return None;
    }
    match parse_u32(slice_subrange(right, rpm_label.len(), right.len())) {
        Some(rpm) => Some(
            Preset { name: slice_to_vec(slice_subrange(left, name_label.len(), left.len())), rpm },
        ),
        None => None,
    }
}

/// Reads the presets that a file with these contents holds.
pub fn read_presets(contents: &[u8]) -> (presets: Vec<Preset>)
    ensures
        presets.deep_view() == parsed_presets(contents@),
{
    let end_of_line: [u8; 1] = [NEWLINE];
    let ghost all = contents@;
    let mut presets: Vec<Preset> = Vec::new();
    let mut pos: usize = 0;
    proof {
        assert(all.skip(0) =~= all);
    }
    while pos < contents.len()
        invariant
            all == contents@,
            end_of_line@ == line_end(),
            pos <= contents.len(),
            presets.deep_view() + parsed_presets(all.skip(pos as int)) == parsed_presets(all),
        decreases contents.len() - pos,
    {
        let rest = slice_subrange(contents, pos, contents.len());
        proof {
            lemma_first_match(rest@, line_end());
        }
        let (line, next): (&[u8], usize) = match find(rest, end_of_line.as_slice()) {
            Some(end) => {
                proof {
                    assert(rest@.skip(end + 1) =~= all.skip(pos + end + 1));
                }
                let line = slice_subrange(rest, 0, end);
                if end > 0 && line[end - 1] == CARRIAGE_RETURN {
                    (slice_subrange(line, 0, end - 1), pos + end + 1)
                } else {
                    (line, pos + end + 1)
                }
            },
            None => (rest, contents.len()),
        };
        if let Some(preset) = parse_preset(line) {
            presets.push(preset);
        }
        pos = next;
    }
    presets
}

/// Appends the line that holds a preset of this name and speed to `text`.
fn push_line(text: &mut Vec<u8>, name: &[u8], rpm: u32)
    ensures
        final(text)@ == old(text)@ + preset_line(PresetView { name: name@, rpm }),
{
    let name_label = name_label_bytes();
    let rpm_label = rpm_label_bytes();
    let mut name_copy = slice_to_vec(name);
    let mut name_part = slice_to_vec(name_label.as_slice());
    let mut rpm_part = slice_to_vec(rpm_label.as_slice());
    let mut digits = render_decimal(rpm);
    text.append(&mut name_part);
    text.append(&mut name_copy);
    text.push(TAB);
    text.append(&mut rpm_part);
    text.append(&mut digits);
    text.push(NEWLINE);
}

/// The line to append to the file for a preset that a user has entered.
pub fn add_preset(input: &PresetInput) -> (line: Vec<u8>)
    ensures
        line@ == preset_line(input@),
{
    let mut line: Vec<u8> = Vec::new();
    push_line(&mut line, input.name.as_slice(), input.rpm);
    line
}

/// The contents of a file that holds `presets`, in order.
pub fn render_presets(presets: &[Preset]) -> (text: Vec<u8>)
    ensures
        text@ == rendered(presets.deep_view()),
{
    let ghost all = presets.deep_view();
    let mut text: Vec<u8> = Vec::new();
    let mut i: usize = 0;
    while i < presets.len()
        invariant
            i <= presets.len(),
            all == presets.deep_view(),
            text@ == rendered(all.take(i as int)),
        decreases presets.len() - i,
    {
        proof {
            assert(all.take(i + 1).drop_last() =~= all.take(i as int));
        }
        push_line(&mut text, presets[i].name.as_slice(), presets[i].rpm);
        i += 1;
    }
    proof {
        assert(all.take(i as int) =~= all);
    }
    text
}

/// The contents of the file once the presets of speed `rpm` are deleted: the other
/// presets that it holds, written anew. Lines that hold no preset are not kept.
pub fn delete_preset(contents: &[u8], rpm: u32) -> (text: Vec<u8>)
    ensures
        text@ == rendered(without_rpm(parsed_presets(contents@), rpm)),
{
    let presets = read_presets(contents);
    let ghost all = presets.deep_view();
    let ghost keep = |preset: PresetView| preset.rpm != rpm;
    let mut text: Vec<u8> = Vec::new();
    let mut i: usize = 0;
    proof {
        reveal(Seq::filter);
    }
    while i < presets.len()
        invariant
            i <= presets.len(),
            all == presets.deep_view(),
            keep == |preset: PresetView| preset.rpm != rpm,
            text@ == rendered(all.take(i as int).filter(keep)),
        decreases presets.len() - i,
    {
        proof {
            reveal(Seq::filter);
            assert(all.take(i + 1).drop_last() =~= all.take(i as int));
        }
        if presets[i].rpm != rpm {
            proof {
                let kept = all.take(i + 1).filter(keep);
                assert(kept.drop_last() =~= all.take(i as int).filter(keep));
            }
            push_line(&mut text, presets[i].name.as_slice(), presets[i].rpm);
        }
        i += 1;
    }
    proof {
        assert(all.take(i as int) =~= all);
    }
    text
}

/// The presets of a fresh file.
pub fn default_presets() -> (presets: Vec<Preset>)
    ensures
        presets.deep_view() == default_table(),
{
    let mut presets: Vec<Preset> = Vec::new();
    presets.push(Preset { name: slice_to_vec("Very Slow".as_bytes()), rpm: 25 });
    presets.push(Preset { name: slice_to_vec("Slow".as_bytes()), rpm: 50 });
    presets.push(Preset { name: slice_to_vec("Medium Slow".as_bytes()), rpm: 75 });
    presets.push(Preset { name: slice_to_vec("Medium".as_bytes()), rpm: 100 });
    presets.push(Preset { name: slice_to_vec("Medium Fast".as_bytes()), rpm: 125 });
    presets.push(Preset { name: slice_to_vec("Fast".as_bytes()), rpm: 150 });
    presets.push(Preset { name: slice_to_vec("Very Fast".as_bytes()), rpm: 175 });
    presets.push(Preset { name: slice_to_vec("Maximum".as_bytes()), rpm: 200 });
    presets
}

/// The contents with which the file is created where it does not exist yet.
pub fn initialize_presets() -> (text: Vec<u8>)
    ensures
        text@ == rendered(default_table()),
{
    let presets = default_presets();
    render_presets(presets.as_slice())
}

/// The text that holds a preset with a plain name reads back as that preset, and
/// holds no line feed and no carriage return at its end.
pub proof fn lemma_preset_text_reads_back(preset: PresetView)
    requires
        plain_name(preset.name),
    ensures
        parsed_preset(preset_text(preset)) == Some(preset),
        free_of(preset_text(preset), NEWLINE),
        without_return(preset_text(preset)) == preset_text(preset),
{
    let name = preset.name;
    let digits = decimal_text(preset.rpm as nat);
    let text = preset_text(preset);
    let cut = (name_label().len() + name.len()) as int;
    law_decimal_text_reads_back(preset.rpm as nat, u32::MAX as nat);
    lemma_first_byte_at(text, TAB, cut);
    let left = text.take(cut);
    let right = text.skip(cut + 1);
    lemma_no_byte(right, TAB);
    assert(left.subrange(0, name_label().len() as int) =~= name_label());
    assert(right.subrange(0, rpm_label().len() as int) =~= rpm_label());
    assert(right.skip(rpm_label().len() as int) =~= digits);
    assert(left.skip(name_label().len() as int) =~= name);
}

/// The contents of a file begin with the line of its first preset.
pub proof fn lemma_rendered_begins(presets: Seq<PresetView>)
    requires
        presets.len() > 0,
    ensures
        rendered(presets) == preset_line(presets[0]) + rendered(presets.drop_first()),
    decreases presets.len(),
{
    let rest = presets.drop_first();
    if presets.len() == 1 {
        assert(rendered(presets.drop_last()) =~= Seq::<u8>::empty());
    } else {
        let front = presets.drop_last();
        lemma_rendered_begins(front);
        assert(front.drop_first() =~= rest.drop_last());
    }
}

/// Law of the file. Presets with plain names, written to a file, are read back from
/// it as they were, in their order.
pub proof fn law_rendered_presets_read_back(presets: Seq<PresetView>)
    requires
        forall|i: int| 0 <= i < presets.len() ==> plain_name(#[trigger] presets[i].name),
    ensures
        parsed_presets(rendered(presets)) == presets,
    decreases presets.len(),
{
    if presets.len() > 0 {
        let first = presets[0];
        let rest = presets.drop_first();
        let text = preset_text(first);
        let contents = rendered(presets);
        let end = text.len() as int;
        lemma_rendered_begins(presets);
        lemma_preset_text_reads_back(first);
        law_rendered_presets_read_back(rest);
        assert(contents.take(end) =~= text);
        assert(contents.skip(end + 1) =~= rendered(rest));
        lemma_first_byte_at(contents, NEWLINE, end);
    }
}

} // verus!
