use serial_link::reading::{channel_value, decode_line, RpmReading};
use serial_link::text::{
    find, matches_at, parse_decimal, parse_u16, parse_u32, render_decimal, trim, trim_end,
    trim_start,
};

#[test]
fn trim_cuts_blanks_on_both_sides() {
    assert_eq!(trim(b"  \t RPM1: 1 \r\n"), b"RPM1: 1");
    assert_eq!(trim(b"\x0b\x0cword\x0b"), b"word");
    assert_eq!(trim(b"a b"), b"a b");
    assert_eq!(trim(b""), b"");
    assert_eq!(trim(b" \t\r\n"), b"");
}

#[test]
fn trim_start_and_trim_end_cut_one_side_only() {
    assert_eq!(trim_start(b"  ab  "), b"ab  ");
    assert_eq!(trim_end(b"  ab  "), b"  ab");
}

#[test]
fn find_gives_the_first_occurrence() {
    assert_eq!(find(b"xxRPM1:yyRPM1:", b"RPM1:"), Some(2));
    assert_eq!(find(b"a;b;c", b";"), Some(1));
    assert_eq!(find(b"abc", b"abc"), Some(0));
    assert_eq!(find(b"abc", b"abcd"), None);
    assert_eq!(find(b"abc", b"x"), None);
    assert_eq!(find(b"", b"x"), None);
}

#[test]
fn find_of_the_empty_pattern_is_the_start() {
    assert_eq!(find(b"abc", b""), Some(0));
    assert_eq!(find(b"", b""), Some(0));
}

#[test]
fn matches_at_tests_one_index() {
    assert!(matches_at(b"xxRPM1:", b"RPM1:", 2));
    assert!(!matches_at(b"xxRPM1:", b"RPM1:", 1));
    assert!(!matches_at(b"xxRPM1:", b"RPM1:", 3));
    assert!(!matches_at(b"abc", b"c", 3));
    assert!(!matches_at(b"abc", b"c", 100));
    assert!(matches_at(b"abc", b"", 3));
}

#[test]
fn parse_u16_reads_digits_with_an_optional_plus() {
    assert_eq!(parse_u16(b"0"), Some(0));
    assert_eq!(parse_u16(b"42"), Some(42));
    assert_eq!(parse_u16(b"+5"), Some(5));
    assert_eq!(parse_u16(b"007"), Some(7));
    assert_eq!(parse_u16(b"65535"), Some(65535));
    assert_eq!(parse_u16(b"000000000000000000000065535"), Some(65535));
}

#[test]
fn parse_u16_refuses_what_is_no_field_in_range() {
    assert_eq!(parse_u16(b""), None);
    assert_eq!(parse_u16(b"+"), None);
    assert_eq!(parse_u16(b"++1"), None);
    assert_eq!(parse_u16(b"-1"), None);
    assert_eq!(parse_u16(b"-0"), None);
    assert_eq!(parse_u16(b" 1"), None);
    assert_eq!(parse_u16(b"1 "), None);
    assert_eq!(parse_u16(b"1a"), None);
    assert_eq!(parse_u16(b"65536"), None);
    assert_eq!(parse_u16(b"99999999999999999999999999"), None);
}

#[test]
fn parse_u32_has_the_wider_range() {
    assert_eq!(parse_u32(b"65536"), Some(65536));
    assert_eq!(parse_u32(b"4294967295"), Some(4294967295));
    assert_eq!(parse_u32(b"4294967296"), None);
    assert_eq!(parse_u32(b"+200"), Some(200));
    assert_eq!(parse_u32(b""), None);
}

#[test]
fn parse_decimal_respects_its_bound() {
    assert_eq!(parse_decimal(b"100", 100), Some(100));
    assert_eq!(parse_decimal(b"101", 100), None);
    assert_eq!(parse_decimal(b"0", 0), Some(0));
    assert_eq!(parse_decimal(b"1", 0), None);
}

#[test]
fn render_decimal_writes_the_numeral() {
    assert_eq!(render_decimal(0), b"0".to_vec());
    assert_eq!(render_decimal(7), b"7".to_vec());
    assert_eq!(render_decimal(10), b"10".to_vec());
    assert_eq!(render_decimal(115200), b"115200".to_vec());
    assert_eq!(render_decimal(4294967295), b"4294967295".to_vec());
}

#[test]
fn a_rendered_numeral_reads_back() {
    for n in [0u32, 1, 9, 10, 99, 100, 65535, 65536, 1_000_000, u32::MAX] {
        assert_eq!(parse_u32(&render_decimal(n)), Some(n));
    }
}

#[test]
fn decode_line_reads_both_channels() {
    let reading = decode_line(b"RPM1: 10;RPM2: 20").unwrap();
    assert_eq!(reading.values, [10, 20]);
    assert_eq!(reading.timestamp, b"".to_vec());
}

#[test]
fn decode_line_keeps_the_stamp_of_the_device() {
    let reading = decode_line(b"  12:00:01  RPM1: 1;RPM2: 2").unwrap();
    assert_eq!(reading, RpmReading { timestamp: b"12:00:01".to_vec(), values: [1, 2] });
}

#[test]
fn decode_line_allows_blanks_around_labels_and_fields() {
    let reading = decode_line(b" \tRPM1:10 ;  RPM2:\t+20 \r").unwrap();
    assert_eq!(reading.values, [10, 20]);
    let reading = decode_line(b"RPM1:0;RPM2:65535").unwrap();
    assert_eq!(reading.values, [0, 65535]);
}

#[test]
fn decode_line_refuses_malformed_lines() {
    assert_eq!(decode_line(b"garbage"), None);
    assert_eq!(decode_line(b""), None);
    assert_eq!(decode_line(b"RPM1: 10"), None);
    assert_eq!(decode_line(b"RPM1: 10;"), None);
    assert_eq!(decode_line(b"RPM1: 10;RPM2: 20;"), None);
    assert_eq!(decode_line(b"RPM1: 10;RPM2: 20;RPM3: 30"), None);
    assert_eq!(decode_line(b"RPM1: 10;RPM3: 20"), None);
    assert_eq!(decode_line(b"RPM1: 65536;RPM2: 20"), None);
    assert_eq!(decode_line(b"RPM1: 10;RPM2: -1"), None);
    assert_eq!(decode_line(b"RPM1: 10;RPM2: 2 0"), None);
    assert_eq!(decode_line(b"RPM1: ;RPM2: 20"), None);
    assert_eq!(decode_line(b"RPM2: 20;RPM1: 10"), None);
    assert_eq!(decode_line(b"rpm1: 10;rpm2: 20"), None);
    assert_eq!(decode_line(b"RPM1: 1x;RPM2: 20"), None);
}

#[test]
fn a_semicolon_in_the_stamp_does_not_count() {
    let reading = decode_line(b"a;b RPM1: 3;RPM2: 4").unwrap();
    assert_eq!(reading, RpmReading { timestamp: b"a;b".to_vec(), values: [3, 4] });
}

#[test]
fn channel_value_reads_one_channel() {
    assert_eq!(channel_value(b" RPM1: 7 ", b"RPM1:"), Some(7));
    assert_eq!(channel_value(b"RPM1:7", b"RPM2:"), None);
    assert_eq!(channel_value(b"x RPM1:7", b"RPM1:"), None);
    assert_eq!(channel_value(b"RPM1:", b"RPM1:"), None);
}
