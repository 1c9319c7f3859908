use random_number_api::text::{chars_of, push_signed_decimal, to_decimal, trim_bounds, white_space};

#[test]
fn decimal_rendering() {
    assert_eq!(to_decimal(0), "0");
    assert_eq!(to_decimal(7), "7");
    assert_eq!(to_decimal(10), "10");
    assert_eq!(to_decimal(4200), "4200");
    assert_eq!(to_decimal(u32::MAX), "4294967295");
}

#[test]
fn trim_bounds_match_std_trim() {
    for s in ["", "  ", " a ", "abc", "\t\nx y\r\n", "\u{3000}z\u{205f}"] {
        let chars = chars_of(s);
        assert_eq!(chars, s.chars().collect::<Vec<char>>());
        let (start, end) = trim_bounds(&chars);
        let trimmed: String = chars[start..end].iter().collect();
        assert_eq!(trimmed, s.trim());
    }
}

#[test]
fn white_space_matches_std() {
    for c in ['\t', '\n', '\u{b}', '\u{c}', '\r', ' ', '\u{85}', '\u{a0}', '\u{1680}', '\u{2000}', '\u{200a}',
              '\u{2028}', '\u{2029}', '\u{202f}', '\u{205f}', '\u{3000}', 'a', '0', '\u{200b}', '\u{feff}', '+'] {
        assert_eq!(white_space(c), c.is_whitespace(), "{:?}", c);
    }
}

#[test]
fn signed_decimal_rendering() {
    for n in [0, 7, -7, 1337, -1337, i32::MAX, i32::MIN] {
        let mut out = String::from("n=");
        push_signed_decimal(&mut out, n);
        assert_eq!(out, format!("n={n}"));
    }
}
