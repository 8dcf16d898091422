use autograder_setup::text::{
    as_deref, chars_of, clone_text, decimal_string, join, rank, same_chars, same_text, string_of,
    trim, white_space, Rank,
};

#[test]
fn white_space_is_what_the_standard_library_calls_white_space() {
    for n in 0..=0x10FFFFu32 {
        if let Some(c) = char::from_u32(n) {
            assert_eq!(white_space(c), c.is_whitespace(), "U+{:04X}", n);
        }
    }
}

#[test]
fn trim_agrees_with_the_standard_library() {
    let samples = [
        "",
        " ",
        "a",
        "  a  ",
        "\t\n a b \r\n",
        "\u{a0}x\u{3000}",
        "\u{2028}\u{2029}",
        "x\u{200b}",
        " inner  space kept ",
        "\u{85}é\u{1680}",
    ];
    for s in samples {
        assert_eq!(trim(s), s.trim(), "{:?}", s);
    }
}

#[test]
fn decimal_string_writes_numbers() {
    assert_eq!(decimal_string(0), "0");
    assert_eq!(decimal_string(7), "7");
    assert_eq!(decimal_string(10), "10");
    assert_eq!(decimal_string(4294967295), "4294967295");
    assert_eq!(decimal_string(u64::MAX), "18446744073709551615");
    for n in [1u64, 9, 99, 100, 101, 12345, 1000000007] {
        assert_eq!(decimal_string(n), n.to_string());
    }
}

#[test]
fn join_puts_the_separator_between() {
    let none: Vec<String> = vec![];
    assert_eq!(join(&none, ","), "");
    assert_eq!(join(&vec!["a".to_string()], ","), "a");
    assert_eq!(join(&vec!["a".to_string(), "".to_string(), "b".to_string()], ", "), "a, , b");
    assert_eq!(join(&vec!["".to_string(), "".to_string()], "\n"), "\n");
}

#[test]
fn rank_agrees_with_the_order_of_strings() {
    let samples = ["", "a", "ab", "b", "B", "a-b", "a_b", "é", "z", "member/Cargo.toml", "Cargo.toml", "\u{10FFFF}"];
    for a in samples {
        for b in samples {
            let expected = match a.cmp(b) {
                std::cmp::Ordering::Less => Rank::Before,
                std::cmp::Ordering::Equal => Rank::Same,
                std::cmp::Ordering::Greater => Rank::After,
            };
            assert_eq!(rank(a, b), expected, "{:?} {:?}", a, b);
            assert_eq!(same_text(a, b), a == b);
        }
    }
}

#[test]
fn characters_and_texts_convert_both_ways() {
    for s in ["", "abc", "naïve ✅"] {
        let v = chars_of(s);
        assert_eq!(v, s.chars().collect::<Vec<char>>());
        assert_eq!(string_of(&v), s);
        assert!(same_chars(&v, &s.chars().collect()));
    }
    assert!(!same_chars(&vec!['a'], &vec!['a', 'b']));
    assert!(!same_chars(&vec!['a', 'c'], &vec!['a', 'b']));
}

#[test]
fn optional_texts_are_copied_and_borrowed() {
    let some = Some("x".to_string());
    assert_eq!(clone_text(&some), some);
    assert_eq!(clone_text(&None), None);
    assert_eq!(as_deref(&some), Some("x"));
    assert_eq!(as_deref(&None), None);
}
