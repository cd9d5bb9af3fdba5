use pylon_tg_bot::text::{
    decimal_string, is_blank, is_whitespace, join, owned, push_decimal, same_text, to_chars, trim,
};

#[test]
fn whitespace_is_what_std_calls_whitespace() {
    let mut c = 0u32;
    while c < 0x11_0000 {
        if let Some(ch) = char::from_u32(c) {
            assert_eq!(is_whitespace(ch), ch.is_whitespace(), "U+{:04X}", c);
        }
        c += 1;
    }
}

#[test]
fn trim_agrees_with_std() {
    let samples = [
        "",
        " ",
        "  acct-42  ",
        "acct-42",
        "\t\n a b \r\n",
        "\u{a0}x\u{3000}",
        " a",
        "a ",
        "   ",
        "\u{2003}two  words\u{2003}",
    ];
    for s in samples {
        assert_eq!(trim(s), s.trim(), "{:?}", s);
        assert_eq!(is_blank(s), s.trim().is_empty(), "{:?}", s);
    }
}

#[test]
fn trim_takes_the_account_out_of_its_spaces() {
    assert_eq!(trim("  acct-42  "), "acct-42");
}

#[test]
fn chars_round_trip() {
    let v = to_chars("h\u{e9}llo");
    assert_eq!(v, vec!['h', '\u{e9}', 'l', 'l', 'o']);
    assert_eq!(owned("abc"), "abc");
}

#[test]
fn same_text_is_equality() {
    assert!(same_text("", ""));
    assert!(same_text("abc", "abc"));
    assert!(!same_text("abc", "abd"));
    assert!(!same_text("abc", "ab"));
    assert!(!same_text("abc", "ABC"));
}

#[test]
fn decimal_agrees_with_to_string() {
    let samples = [
        0i64,
        1,
        -1,
        9,
        10,
        -10,
        42,
        123_456_789,
        -1_001_234_567_890,
        i64::MAX,
        i64::MIN,
        i64::MIN + 1,
    ];
    for n in samples {
        assert_eq!(decimal_string(n), n.to_string());
    }
}

#[test]
fn push_decimal_appends_the_numeral() {
    let mut s = String::from("#");
    push_decimal(&mut s, 0);
    push_decimal(&mut s, 7);
    push_decimal(&mut s, u64::MAX);
    assert_eq!(s, "#0718446744073709551615");
}

#[test]
fn join_agrees_with_std() {
    let none: Vec<String> = vec![];
    let one = vec![String::from("a")];
    let three = vec![String::from("a"), String::new(), String::from("c")];
    assert_eq!(join(&none, ", "), none.join(", "));
    assert_eq!(join(&one, ", "), "a");
    assert_eq!(join(&three, ", "), "a, , c");
    assert_eq!(join(&three, ""), "ac");
}

#[test]
fn trimming_twice_is_trimming_once() {
    for s in ["  a b  ", "", " \t ", "x", "\u{3000}y z\n"] {
        assert_eq!(trim(&trim(s)), trim(s));
    }
}
