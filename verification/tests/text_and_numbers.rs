use surrealmcp::decimal::{parse_u32, u16_to_decimal, u32_to_decimal};
use surrealmcp::pids::{parse_pid_lines, pids_from_output};
use surrealmcp::text::{char_is_whitespace, chars_of, decode_lossy, trim_range};

fn chars(s: &str) -> Vec<char> {
    s.chars().collect()
}

fn parse(s: &str) -> Option<u32> {
    let v = chars(s);
    parse_u32(&v, 0, v.len())
}

#[test]
fn decimal_rendering_matches_to_string() {
    for n in [0u32, 7, 10, 42, 100, 65535, 1234567, u32::MAX] {
        assert_eq!(u32_to_decimal(n), n.to_string());
    }
    assert_eq!(u16_to_decimal(8090), "8090");
    assert_eq!(u16_to_decimal(0), "0");
}

#[test]
fn parse_accepts_what_std_accepts() {
    assert_eq!(parse("0"), Some(0));
    assert_eq!(parse("12345"), Some(12345));
    assert_eq!(parse("+17"), Some(17));
    assert_eq!(parse("0004294967295"), Some(u32::MAX));
    assert_eq!(parse("4294967295"), Some(u32::MAX));
}

#[test]
fn parse_refuses_what_std_refuses() {
    for s in ["", "+", "-", "-1", "4294967296", "99999999999999999999", "1a", " 1", "++1", "１"] {
        assert_eq!(parse(s), None, "input {:?}", s);
        assert!(s.parse::<u32>().is_err());
    }
}

#[test]
fn parse_agrees_with_std_on_samples() {
    for s in ["1", "+0", "00", "123456789", "4294967294", "4294967300", "+-1", "12 "] {
        assert_eq!(parse(s), s.parse::<u32>().ok(), "input {:?}", s);
    }
}

#[test]
fn parse_reads_a_slice_of_the_text() {
    let v = chars("pid=4711;");
    assert_eq!(parse_u32(&v, 4, 8), Some(4711));
    assert_eq!(parse_u32(&v, 3, 8), None);
}

#[test]
fn decimal_round_trip_on_values() {
    for n in [0u32, 1, 9, 10, 99, 4711, u32::MAX] {
        assert_eq!(parse(&u32_to_decimal(n)), Some(n));
    }
}

#[test]
fn whitespace_is_unicode_white_space() {
    for c in [' ', '\t', '\n', '\r', '\u{0B}', '\u{0C}', '\u{85}', '\u{A0}', '\u{1680}', '\u{2000}', '\u{200A}', '\u{2028}', '\u{2029}', '\u{202F}', '\u{205F}', '\u{3000}'] {
        assert!(char_is_whitespace(c), "{:?}", c);
        assert!(c.is_whitespace());
    }
    for c in ['a', '0', '\u{200B}', '\u{FFFD}', '\u{0}', '\u{1F}'] {
        assert_eq!(char_is_whitespace(c), c.is_whitespace(), "{:?}", c);
    }
}

#[test]
fn trim_range_matches_str_trim() {
    for s in ["", "   ", " a ", "\u{3000}x y\t\r", "abc", "\u{A0}12\u{A0}"] {
        let v = chars(s);
        let (a, b) = trim_range(&v, 0, v.len());
        let got: String = v[a..b].iter().collect();
        assert_eq!(got, s.trim(), "input {:?}", s);
    }
}

#[test]
fn chars_of_keeps_every_character() {
    assert_eq!(chars_of("héllo ✓"), vec!['h', 'é', 'l', 'l', 'o', ' ', '✓']);
    assert!(chars_of("").is_empty());
}

#[test]
fn decode_lossy_replaces_invalid_bytes() {
    assert_eq!(decode_lossy(b"abc"), vec!['a', 'b', 'c']);
    assert_eq!(decode_lossy(&[0x61, 0xff, 0x62]), vec!['a', '\u{FFFD}', 'b']);
    assert_eq!(decode_lossy("é".as_bytes()), vec!['é']);
}

fn std_pids(text: &str) -> Vec<u32> {
    text.lines().filter_map(|l| l.trim().parse::<u32>().ok()).collect()
}

#[test]
fn pid_lines_one_per_line() {
    assert_eq!(parse_pid_lines(&chars("123\n456\n")), vec![123, 456]);
    assert_eq!(parse_pid_lines(&chars("123\r\n456")), vec![123, 456]);
    assert_eq!(parse_pid_lines(&chars("  77  \n\nabc\n88\n")), vec![77, 88]);
    assert!(parse_pid_lines(&chars("")).is_empty());
    assert!(parse_pid_lines(&chars("\n\n")).is_empty());
}

#[test]
fn pid_lines_agree_with_std() {
    for s in ["1\n2\n3", "1\r\n\r\n2\r", "x\n+5\n-5\n 6 \n", "4294967296\n4294967295\n", "\u{A0}9\u{3000}\n\r\n", "\n"] {
        assert_eq!(parse_pid_lines(&chars(s)), std_pids(s), "input {:?}", s);
    }
}

#[test]
fn pids_from_raw_output() {
    assert_eq!(pids_from_output(b"4711\n4712\n"), vec![4711, 4712]);
    assert_eq!(pids_from_output(&[0x31, 0x32, 0xff, 0x0a, 0x33, 0x0a]), vec![3]);
}
