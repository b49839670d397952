use rs_keymap_parser::decimal::{number_error_message, parse_number_in, push_decimal, NumberError};
use rs_keymap_parser::keycodes::KeyCode;
use rs_keymap_parser::text::{
    char_is_whitespace, chars_of, find_char, lines_text, same_text, skip_run, skip_trailing_ws,
    span_contains, span_is, split_spans, substring, text_contains, text_has_whitespace,
    text_lines, token_spans, trim_span, Span,
};

fn cut(s: &str, spans: &[Span]) -> Vec<String> {
    spans.iter().map(|sp| substring(s, sp.lo, sp.hi)).collect()
}

fn tokens_of(s: &str) -> Vec<String> {
    let cs = chars_of(s);
    cut(s, &token_spans(&cs, 0, cs.len()))
}

fn split_of(s: &str, sep: char) -> Vec<String> {
    let cs = chars_of(s);
    cut(s, &split_spans(&cs, 0, cs.len(), sep))
}

fn trim_of(s: &str) -> String {
    let cs = chars_of(s);
    let t = trim_span(&cs, 0, cs.len());
    substring(s, t.lo, t.hi)
}

#[test]
fn whitespace_is_what_the_standard_library_says() {
    for n in 0..=0x11_0000u32 {
        if let Some(c) = char::from_u32(n) {
            assert_eq!(char_is_whitespace(c), c.is_whitespace(), "U+{:04X}", n);
        }
    }
}

#[test]
fn tokens_split_and_trim_follow_the_standard_library() {
    for s in [
        "",
        " ",
        "a",
        "  a  ",
        "KEY 1  65\t40044 0 ",
        "\u{a0}x\u{2003}y\u{3000}",
        "a\"b \"c d\" e\"\"",
        "::a: :b::",
        "é ü  ß",
    ] {
        let want: Vec<String> = s.split_whitespace().map(|t| t.to_string()).collect();
        assert_eq!(tokens_of(s), want, "tokens of {:?}", s);
        for sep in ['"', ':', '#', ' '] {
            let want: Vec<String> = s.split(sep).map(|t| t.to_string()).collect();
            assert_eq!(split_of(s, sep), want, "split of {:?} at {:?}", s, sep);
        }
        assert_eq!(trim_of(s), s.trim(), "trim of {:?}", s);
    }
}

#[test]
fn positions_in_a_span() {
    let cs = chars_of("  ab  cd  ");
    assert_eq!(skip_run(&cs, 0, cs.len(), true), 2);
    assert_eq!(skip_run(&cs, 2, cs.len(), false), 4);
    assert_eq!(skip_run(&cs, 2, 3, false), 3);
    assert_eq!(skip_run(&cs, 8, cs.len(), true), 10);
    assert_eq!(skip_trailing_ws(&cs, 0, cs.len()), 8);
    assert_eq!(skip_trailing_ws(&cs, 0, 2), 0);
    assert_eq!(find_char(&cs, 0, cs.len(), 'c'), 6);
    assert_eq!(find_char(&cs, 0, cs.len(), 'x'), 10);
    assert_eq!(find_char(&cs, 7, cs.len(), 'c'), 10);
    assert_eq!(trim_span(&cs, 1, 7), Span { lo: 2, hi: 7 });
    assert_eq!(trim_span(&cs, 4, 6), Span { lo: 6, hi: 6 });
    assert!(span_is(&cs, 2, 4, "ab"));
    assert!(!span_is(&cs, 2, 5, "ab"));
    assert!(!span_is(&cs, 2, 4, "ac"));
    assert!(span_is(&cs, 3, 3, ""));
    let pat = chars_of("b  c");
    assert!(span_contains(&cs, 0, cs.len(), &pat));
    assert!(!span_contains(&cs, 0, 6, &pat));
    assert!(!span_contains(&cs, 4, cs.len(), &pat));
    assert!(span_contains(&cs, 5, 5, &[]));
}

#[test]
fn text_predicates() {
    assert!(same_text("abc", "abc"));
    assert!(!same_text("abc", "abd"));
    assert!(!same_text("abc", "ab"));
    assert!(same_text("", ""));
    assert!(text_contains("MY OVERRIDE", "OVERRIDE"));
    assert!(!text_contains("MY OVERRID", "OVERRIDE"));
    assert!(text_contains("x", ""));
    assert!(!text_contains("", "x"));
    assert!(text_has_whitespace("a b"));
    assert!(text_has_whitespace("a\u{2028}"));
    assert!(!text_has_whitespace("a_b"));
    assert!(!text_has_whitespace(""));
    assert_eq!(substring("häßlich", 1, 3), "äß");
    assert_eq!(chars_of("aé"), vec!['a', 'é']);
}

fn number(s: &str, max: u32) -> Result<u32, NumberError> {
    let cs = chars_of(s);
    parse_number_in(&cs, 0, cs.len(), max)
}

#[test]
fn numbers_are_read_as_the_standard_library_reads_them() {
    for s in [
        "", "0", "7", "255", "256", "0255", "000", "+", "-", "+0", "+255", "+256", "-0", "-1",
        "++1", "1+", " 1", "1 ", "1_0", "65535", "65536", "4294967295", "4294967296",
        "99999999999999999999", "12a", "a12", "999a", "٣",
    ] {
        assert_eq!(number(s, 255).ok(), s.parse::<u8>().ok().map(u32::from), "{:?} as u8", s);
        assert_eq!(number(s, 65535).ok(), s.parse::<u16>().ok().map(u32::from), "{:?} as u16", s);
        assert_eq!(number(s, u32::MAX).ok(), s.parse::<u32>().ok(), "{:?} as u32", s);
        if let Err(e) = number(s, 255) {
            assert_eq!(
                number_error_message(e),
                s.parse::<u8>().unwrap_err().to_string(),
                "{:?} as u8",
                s
            );
        }
        if let Err(e) = number(s, u32::MAX) {
            assert_eq!(
                number_error_message(e),
                s.parse::<u32>().unwrap_err().to_string(),
                "{:?} as u32",
                s
            );
        }
    }
    assert_eq!(number("", 9), Err(NumberError::Empty));
    assert_eq!(number("x", 9), Err(NumberError::InvalidDigit));
    assert_eq!(number("10", 9), Err(NumberError::Overflow));
    assert_eq!(number("9", 9), Ok(9));
    let cs = chars_of("ab123cd");
    assert_eq!(parse_number_in(&cs, 2, 5, 1000), Ok(123));
    assert_eq!(parse_number_in(&cs, 2, 6, 1000), Err(NumberError::InvalidDigit));
}

#[test]
fn numbers_are_written_in_decimal() {
    for n in [0u32, 1, 9, 10, 11, 99, 100, 255, 256, 32060, 65535, 1_000_000, u32::MAX] {
        let mut out = String::from("n=");
        push_decimal(&mut out, n);
        assert_eq!(out, format!("n={}", n));
        assert_eq!(number(&out[2..], u32::MAX), Ok(n));
    }
}

#[test]
fn key_codes_and_names() {
    let mut known = 0;
    for code in 0..=u16::MAX {
        if let Some(k) = KeyCode::from_u16(code) {
            known += 1;
            assert_eq!(u16::from(k.as_u8()), code);
            assert!(!k.display_name().is_empty());
            assert!(!k.display_name().contains(':'));
            assert!(!k.display_name().contains('#'));
        }
    }
    assert_eq!(known, 108);
    assert_eq!(KeyCode::from_u16(65), Some(KeyCode::A));
    assert_eq!(KeyCode::from_u16(90), Some(KeyCode::Z));
    assert_eq!(KeyCode::from_u16(48), Some(KeyCode::Digit0));
    assert_eq!(KeyCode::from_u16(32), Some(KeyCode::Space));
    assert_eq!(KeyCode::from_u16(112), Some(KeyCode::F1));
    assert_eq!(KeyCode::from_u16(135), Some(KeyCode::F24));
    assert_eq!(KeyCode::from_u16(0), None);
    assert_eq!(KeyCode::from_u16(91), None);
    assert_eq!(KeyCode::from_u16(256 + 65), None);
    assert_eq!(KeyCode::M.display_name(), "M");
    assert_eq!(KeyCode::Digit5.display_name(), "5");
    assert_eq!(KeyCode::Numpad5.display_name(), "NumPad 5");
    assert_eq!(KeyCode::Return.display_name(), "Return");
    assert_eq!(KeyCode::Backslash.display_name(), "\\");
    assert_eq!(KeyCode::F10.as_u8(), 121);
}

#[test]
fn lines_of_a_text_follow_the_standard_library() {
    for s in [
        "",
        "\n",
        "a",
        "a\n",
        "a\nb",
        "a\r\nb\r\n",
        "a\r",
        "a\r\n\r\n\rb\r\r\nc\r",
        "\n\n\n",
        "\r\n",
        "\r",
        "KEY 1 65 1 0\r\n# c\n\nSCR 4 0 c \"d\" p",
        "é\nü\r\n",
    ] {
        let want: Vec<String> = s.lines().map(|l| l.to_string()).collect();
        assert_eq!(text_lines(s), want, "lines of {:?}", s);
    }
    assert_eq!(text_lines("a\r\n\nb\r"), vec!["a", "", "b\r"]);
}

#[test]
fn lines_are_written_with_one_line_feed_each() {
    assert_eq!(lines_text(&Vec::new()), "");
    assert_eq!(lines_text(&vec!["a".to_string()]), "a\n");
    assert_eq!(lines_text(&vec!["a".to_string(), "".to_string(), "b c".to_string()]), "a\n\nb c\n");
    let lines = vec!["KEY 1 65 1 0".to_string(), "x".to_string()];
    assert_eq!(text_lines(&lines_text(&lines)), lines);
}
