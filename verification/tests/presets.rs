use serial_link::presets::{
    add_preset, default_presets, delete_preset, initialize_presets, parse_preset, read_presets,
    render_presets, Preset, PresetInput,
};

fn preset(name: &str, rpm: u32) -> Preset {
    Preset { name: name.as_bytes().to_vec(), rpm }
}

const FRESH: &[u8] = b"NAME: Very Slow\tRPM: 25\nNAME: Slow\tRPM: 50\nNAME: Medium Slow\tRPM: 75\nNAME: Medium\tRPM: 100\nNAME: Medium Fast\tRPM: 125\nNAME: Fast\tRPM: 150\nNAME: Very Fast\tRPM: 175\nNAME: Maximum\tRPM: 200\n";

#[test]
fn a_fresh_file_holds_the_eight_defaults() {
    assert_eq!(initialize_presets(), FRESH.to_vec());
    assert_eq!(
        default_presets(),
        vec![
            preset("Very Slow", 25),
            preset("Slow", 50),
            preset("Medium Slow", 75),
            preset("Medium", 100),
            preset("Medium Fast", 125),
            preset("Fast", 150),
            preset("Very Fast", 175),
            preset("Maximum", 200),
        ]
    );
}

#[test]
fn a_fresh_file_reads_back_as_the_defaults() {
    assert_eq!(read_presets(&initialize_presets()), default_presets());
}

#[test]
fn parse_preset_reads_one_line() {
    assert_eq!(parse_preset(b"NAME: Fast\tRPM: 150"), Some(preset("Fast", 150)));
    assert_eq!(parse_preset(b"NAME: \tRPM: 0"), Some(preset("", 0)));
    assert_eq!(parse_preset(b"NAME: a b  \tRPM: +7"), Some(preset("a b  ", 7)));
    assert_eq!(
        parse_preset(b"NAME: top\tRPM: 4294967295"),
        Some(preset("top", 4294967295))
    );
}

#[test]
fn parse_preset_refuses_lines_that_do_not_fit() {
    assert_eq!(parse_preset(b""), None);
    assert_eq!(parse_preset(b"NAME: Fast RPM: 150"), None);
    assert_eq!(parse_preset(b"NAME: Fast\tRPM: 150\t"), None);
    assert_eq!(parse_preset(b"NAME: Fa\tst\tRPM: 150"), None);
    assert_eq!(parse_preset(b"NAME:Fast\tRPM: 150"), None);
    assert_eq!(parse_preset(b"name: Fast\tRPM: 150"), None);
    assert_eq!(parse_preset(b" NAME: Fast\tRPM: 150"), None);
    assert_eq!(parse_preset(b"NAME: Fast\tRPM:150"), None);
    assert_eq!(parse_preset(b"NAME: Fast\tRPM: "), None);
    assert_eq!(parse_preset(b"NAME: Fast\tRPM: 150 "), None);
    assert_eq!(parse_preset(b"NAME: Fast\tRPM:  150"), None);
    assert_eq!(parse_preset(b"NAME: Fast\tRPM: -1"), None);
    assert_eq!(parse_preset(b"NAME: Fast\tRPM: 4294967296"), None);
    assert_eq!(parse_preset(b"RPM: 150\tNAME: Fast"), None);
}

#[test]
fn read_presets_passes_over_lines_that_do_not_fit() {
    let contents = b"NAME: A\tRPM: 1\n\nrubbish\nNAME: B\tRPM: x\nNAME: C\tRPM: 3\n";
    assert_eq!(read_presets(contents), vec![preset("A", 1), preset("C", 3)]);
}

#[test]
fn read_presets_takes_both_line_endings_and_an_unfinished_last_line() {
    let contents = b"NAME: A\tRPM: 1\r\nNAME: B\tRPM: 2\nNAME: C\tRPM: 3";
    assert_eq!(read_presets(contents), vec![preset("A", 1), preset("B", 2), preset("C", 3)]);
    assert_eq!(read_presets(b""), Vec::<Preset>::new());
    assert_eq!(read_presets(b"\n\n"), Vec::<Preset>::new());
}

#[test]
fn a_carriage_return_counts_only_before_a_line_feed() {
    assert_eq!(read_presets(b"NAME: A\tRPM: 1\r"), Vec::<Preset>::new());
    assert_eq!(read_presets(b"NAME: A\tRPM: 1\r\r\n"), Vec::<Preset>::new());
    assert_eq!(read_presets(b"NAME: A\r\tRPM: 1\r\n"), vec![preset("A\r", 1)]);
}

#[test]
fn add_preset_gives_the_line_to_append() {
    let input = PresetInput { name: b"Warm up".to_vec(), rpm: 60 };
    assert_eq!(add_preset(&input), b"NAME: Warm up\tRPM: 60\n".to_vec());
    let input = PresetInput { name: Vec::new(), rpm: 0 };
    assert_eq!(add_preset(&input), b"NAME: \tRPM: 0\n".to_vec());
}

#[test]
fn what_is_added_is_read_back() {
    let mut contents = initialize_presets();
    contents.extend(add_preset(&PresetInput { name: b"Warm up".to_vec(), rpm: 60 }));
    let presets = read_presets(&contents);
    assert_eq!(presets.len(), 9);
    assert_eq!(presets[8], preset("Warm up", 60));
}

#[test]
fn render_presets_writes_one_line_each() {
    assert_eq!(render_presets(&[]), Vec::<u8>::new());
    assert_eq!(
        render_presets(&[preset("A", 1), preset("B", 20)]),
        b"NAME: A\tRPM: 1\nNAME: B\tRPM: 20\n".to_vec()
    );
    assert_eq!(render_presets(&default_presets()), FRESH.to_vec());
}

#[test]
fn delete_preset_drops_every_preset_of_that_speed() {
    let contents = b"NAME: A\tRPM: 1\nNAME: B\tRPM: 2\nNAME: C\tRPM: 1\nNAME: D\tRPM: 3\n";
    assert_eq!(delete_preset(contents, 1), b"NAME: B\tRPM: 2\nNAME: D\tRPM: 3\n".to_vec());
    assert_eq!(delete_preset(contents, 9), contents.to_vec());
    assert_eq!(delete_preset(b"NAME: A\tRPM: 1\n", 1), Vec::<u8>::new());
}

#[test]
fn delete_preset_writes_the_file_anew() {
    let contents = b"NAME: A\tRPM: +1\r\nrubbish\nNAME: B\tRPM: 002";
    assert_eq!(delete_preset(contents, 7), b"NAME: A\tRPM: 1\nNAME: B\tRPM: 2\n".to_vec());
}
