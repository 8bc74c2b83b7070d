use bdent_desktop::text::{
    char_is_whitespace, chars_of, joined, format_decimal, format_signed, same_text,
};

#[test]
fn decimal_of_small_numbers() {
    assert_eq!(format_decimal(0), "0");
    assert_eq!(format_decimal(7), "7");
    assert_eq!(format_decimal(10), "10");
    assert_eq!(format_decimal(99), "99");
    assert_eq!(format_decimal(100), "100");
    assert_eq!(format_decimal(5432), "5432");
}

#[test]
fn decimal_of_the_largest_number() {
    assert_eq!(format_decimal(u64::MAX), "18446744073709551615");
}

#[test]
fn decimal_agrees_with_std() {
    let mut n: u64 = 1;
    for _ in 0..19 {
        assert_eq!(format_decimal(n), n.to_string());
        assert_eq!(format_decimal(n - 1), (n - 1).to_string());
        n *= 10;
    }
}

#[test]
fn signed_decimal() {
    assert_eq!(format_signed(0), "0");
    assert_eq!(format_signed(42), "42");
    assert_eq!(format_signed(-1), "-1");
    assert_eq!(format_signed(-4711), "-4711");
    assert_eq!(format_signed(i32::MAX), "2147483647");
    assert_eq!(format_signed(i32::MIN), "-2147483648");
}

#[test]
fn signed_decimal_agrees_with_std() {
    let mut n: i32 = i32::MIN;
    for _ in 0..4_000 {
        assert_eq!(format_signed(n), n.to_string());
        n = n.wrapping_add(1_073_807);
    }
}

#[test]
fn joined_keeps_the_order() {
    assert_eq!(joined("", ""), "");
    assert_eq!(joined("a", ""), "a");
    assert_eq!(joined("", "b"), "b");
    assert_eq!(joined("ab", "cd"), "abcd");
}

#[test]
fn same_text_compares_whole_texts() {
    assert!(same_text("", ""));
    assert!(same_text("server", "server"));
    assert!(!same_text("server", "serve"));
    assert!(!same_text("server", "Server"));
    assert!(!same_text("a", ""));
}

#[test]
fn chars_of_keeps_every_character() {
    assert_eq!(chars_of(""), Vec::<char>::new());
    assert_eq!(chars_of("a\u{e9}\u{1F600}z"), vec!['a', '\u{e9}', '\u{1F600}', 'z']);
}

#[test]
fn whitespace_is_what_std_calls_whitespace() {
    let mut code: u32 = 0;
    while code <= 0x10FFFF {
        if let Some(c) = char::from_u32(code) {
            assert_eq!(char_is_whitespace(c), c.is_whitespace(), "U+{:04X}", code);
        }
        code += 1;
    }
    assert!(char_is_whitespace(' '));
    assert!(char_is_whitespace('\r'));
    assert!(char_is_whitespace('\u{3000}'));
    assert!(!char_is_whitespace('\u{FEFF}'));
    assert!(!char_is_whitespace('\u{200B}'));
}
