use system_calls::text::{char_is_whitespace, parse_u32, u32_to_decimal};

#[test]
fn whitespace_is_the_unicode_white_space_set() {
    for code in 0u32..=0x10FFFF {
        if let Some(c) = char::from_u32(code) {
            assert_eq!(char_is_whitespace(c), c.is_whitespace(), "U+{code:04X}");
        }
    }
}

#[test]
fn parse_u32_agrees_with_std_on_short_strings() {
    let alphabet = ['0', '1', '9', '+', '-', ' ', 'a'];
    let mut words: Vec<String> = vec![String::new()];
    for _ in 0..4 {
        let mut next = Vec::new();
        for w in &words {
            for c in alphabet {
                let mut v = w.clone();
                v.push(c);
                next.push(v);
            }
        }
        words.extend(next.clone());
        words.sort();
        words.dedup();
    }
    for w in &words {
        assert_eq!(parse_u32(w), w.parse::<u32>().ok(), "{w:?}");
    }
}

#[test]
fn parse_u32_at_the_limit() {
    assert_eq!(parse_u32("4294967295"), Some(u32::MAX));
    assert_eq!(parse_u32("4294967296"), None);
    assert_eq!(parse_u32("42949672950"), None);
    assert_eq!(parse_u32("+0"), Some(0));
}

#[test]
fn decimal_has_no_leading_zero() {
    assert_eq!(u32_to_decimal(0), "0");
    assert_eq!(u32_to_decimal(10), "10");
    assert_eq!(u32_to_decimal(4294967295), "4294967295");
}
