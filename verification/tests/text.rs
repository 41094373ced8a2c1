use variant_access::text::{decimal_string, is_whitespace_char, join_strings, without_whitespace};

#[test]
fn white_space_is_what_unicode_calls_so() {
    let white: Vec<u32> = vec![
        0x09, 0x0a, 0x0b, 0x0c, 0x0d, 0x20, 0x85, 0xa0, 0x1680, 0x2000, 0x2001, 0x2002, 0x2003,
        0x2004, 0x2005, 0x2006, 0x2007, 0x2008, 0x2009, 0x200a, 0x2028, 0x2029, 0x202f, 0x205f,
        0x3000,
    ];
    let mut code: u32 = 0;
    while code <= 0x10ffff {
        if let Some(c) = char::from_u32(code) {
            assert_eq!(is_whitespace_char(c), white.contains(&code), "U+{:04X}", code);
            assert_eq!(is_whitespace_char(c), c.is_whitespace(), "U+{:04X}", code);
        }
        code += 1;
    }
}

#[test]
fn the_neighbours_of_white_space_are_kept() {
    for code in [
        0x08u32, 0x0e, 0x1f, 0x21, 0x84, 0x86, 0x9f, 0xa1, 0x167f, 0x1681, 0x1fff, 0x200b, 0x2027,
        0x202a, 0x202e, 0x2030, 0x205e, 0x2060, 0x2fff, 0x3001,
    ] {
        let c = char::from_u32(code).expect("a character");
        assert!(!is_whitespace_char(c), "U+{:04X}", code);
    }
}

#[test]
fn white_space_is_left_out() {
    assert_eq!(without_whitespace(""), "");
    assert_eq!(without_whitespace("   "), "");
    assert_eq!(without_whitespace("Vec < u8 >"), "Vec<u8>");
    assert_eq!(without_whitespace(" a\tb\nc\r\n"), "abc");
    assert_eq!(without_whitespace("x\u{a0}y\u{2003}z\u{3000}"), "xyz");
    assert_eq!(without_whitespace("déjà vu"), "déjàvu");
    assert_eq!(without_whitespace("a\u{200b}b"), "a\u{200b}b");
}

#[test]
fn parts_are_joined_in_their_order() {
    let none: Vec<String> = vec![];
    assert_eq!(join_strings(&none, ","), "");
    assert_eq!(join_strings(&vec!["a".to_string()], ","), "a");
    assert_eq!(
        join_strings(
            &vec!["a".to_string(), "b".to_string(), "c".to_string()],
            "::"
        ),
        "a::b::c"
    );
    assert_eq!(
        join_strings(&vec!["".to_string(), "".to_string()], ", "),
        ", "
    );
    assert_eq!(
        join_strings(&vec!["Y".to_string(), "X".to_string()], ""),
        "YX"
    );
}

#[test]
fn numbers_are_written_in_base_ten() {
    assert_eq!(decimal_string(0), "0");
    assert_eq!(decimal_string(9), "9");
    assert_eq!(decimal_string(10), "10");
    assert_eq!(decimal_string(32), "32");
    assert_eq!(decimal_string(1234567890), "1234567890");
    assert_eq!(decimal_string(u64::MAX), "18446744073709551615");
    let mut n: u64 = 1;
    for _ in 0..19 {
        assert_eq!(decimal_string(n), n.to_string());
        assert_eq!(decimal_string(n - 1), (n - 1).to_string());
        n *= 10;
    }
}
