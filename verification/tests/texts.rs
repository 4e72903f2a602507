use cast_mcp::block::{hash_of, tag_of, word_of, BlockTag};
use cast_mcp::common::address_of;
use cast_mcp::text::{
    chars_of, digit_of, eq_ignore_ascii_case, is_whitespace_char, parse_u64, same_text, string_of,
    to_ascii_lower_char, trim,
};

fn chars(text: &str) -> Vec<char> {
    text.chars().collect()
}

#[test]
fn characters_of_a_text() {
    assert_eq!(chars_of(""), Vec::<char>::new());
    assert_eq!(chars_of("a\u{e9}\u{4e2d}"), vec!['a', '\u{e9}', '\u{4e2d}']);
    assert_eq!(string_of(&chars("hello"), 1, 4), "ell");
    assert_eq!(string_of(&chars("hello"), 2, 2), "");
    assert!(same_text("abc", "abc"));
    assert!(!same_text("abc", "abd"));
    assert!(!same_text("abc", "ab"));
}

#[test]
fn white_space_is_what_the_standard_library_trims() {
    for code in 0u32..0x3100 {
        if let Some(c) = char::from_u32(code) {
            assert_eq!(is_whitespace_char(c), c.is_whitespace(), "U+{:04X}", code);
        }
    }
    assert!(!is_whitespace_char('\u{feff}'));
    assert!(!is_whitespace_char('\u{10ffff}'));
}

#[test]
fn trimming() {
    let cases = [
        "", " ", "   ", "a", " a", "a ", "  a b  ", "\t\r\n x \u{a0}\u{3000}", "\u{2003}latest\u{2028}",
        "x\u{85}", "no space",
    ];
    for text in cases {
        assert_eq!(trim(&chars(text)), chars(text.trim()), "{:?}", text);
    }
}

#[test]
fn lower_case_of_ascii_only() {
    assert_eq!(to_ascii_lower_char('A'), 'a');
    assert_eq!(to_ascii_lower_char('Z'), 'z');
    assert_eq!(to_ascii_lower_char('a'), 'a');
    assert_eq!(to_ascii_lower_char('@'), '@');
    assert_eq!(to_ascii_lower_char('['), '[');
    assert_eq!(to_ascii_lower_char('\u{c9}'), '\u{c9}');
    assert!(eq_ignore_ascii_case(&chars("LaTeSt"), "latest"));
    assert!(!eq_ignore_ascii_case(&chars("latest "), "latest"));
    assert!(!eq_ignore_ascii_case(&chars("lates"), "latest"));
    assert_eq!(tag_of(&chars("SAFE")), Some(BlockTag::Safe));
    assert_eq!(tag_of(&chars("Finalized")), Some(BlockTag::Finalized));
    assert_eq!(tag_of(&chars("final")), None);
}

#[test]
fn decimal_numerals() {
    for c in '0'..='9' {
        assert_eq!(digit_of(c), Some(c as u8 - b'0'));
    }
    for c in ['/', ':', 'a', ' ', '\u{661}'] {
        assert_eq!(digit_of(c), None);
    }
    let cases = [
        "0", "7", "+7", "007", "123456", "18446744073709551615", "18446744073709551616",
        "99999999999999999999999", "", "+", "-1", "1 ", " 1", "1_000", "0x10", "12a", "++1", "1+",
    ];
    for text in cases {
        assert_eq!(parse_u64(&chars(text)), text.parse::<u64>().ok(), "{:?}", text);
    }
}

#[test]
fn hashes_and_words() {
    let digits = "0123456789abcdefABCDEF0123456789abcdefABCDEF0123456789abcdefABCD";
    let text = format!("0x{}", digits);
    let hash = hash_of(&chars(&text)).unwrap();
    assert_eq!(hash[0], 0x01);
    assert_eq!(hash[1], 0x23);
    assert_eq!(hash[7], 0xef);
    assert_eq!(hash[8], 0xab);
    assert_eq!(hash[31], 0xcd);
    assert_eq!(hash_of(&chars(digits)), None);
    assert_eq!(hash_of(&chars(&format!("0X{}", digits))), None);
    assert_eq!(hash_of(&chars(&format!("0x{}", &digits[1..]))), None);
    assert_eq!(hash_of(&chars(&format!("0x{}g", &digits[1..]))), None);
    assert_eq!(hash_of(&chars(&format!("0x0x{}", &digits[2..]))), None);
    assert_eq!(hash_of(&chars(&format!("0x{}\u{e9}", &digits[2..]))), None);
    assert_eq!(word_of(&vec![5u8; 32]), Some([5u8; 32]));
    assert_eq!(word_of(&vec![5u8; 31]), None);
    assert_eq!(word_of(&vec![5u8; 33]), None);
    assert_eq!(address_of(&vec![6u8; 20]), Some([6u8; 20]));
    assert_eq!(address_of(&vec![6u8; 32]), None);
    assert_eq!(address_of(&Vec::new()), None);
}

#[test]
fn tags_agree_with_unicode_lower_casing() {
    let words = ["latest", "earliest", "pending", "safe", "finalized"];
    let tags = [
        BlockTag::Latest,
        BlockTag::Earliest,
        BlockTag::Pending,
        BlockTag::Safe,
        BlockTag::Finalized,
    ];
    let inputs = [
        "latest", "LATEST", "Latest", "lAtEsT", "EARLIEST", "Pending", "SAFE", "FinaliZed",
        "\u{17f}afe", "fina\u{131}lized", "F\u{130}nalized", "late\u{17f}t", "pend\u{130}ng",
        "\u{212a}", "safe\u{0307}", "LATEST ", "lat est", "", "latests",
    ];
    for input in inputs {
        let lowered = input.to_lowercase();
        let expected = words.iter().position(|w| *w == lowered).map(|i| tags[i]);
        assert_eq!(tag_of(&chars(input)), expected, "{:?}", input);
    }
}
