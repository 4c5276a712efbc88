use puniyu_adapter_console::text::{
    char_count, decimal_text, find_char, same_text, split_once, trim_end, whitespace,
};

#[test]
fn char_count_counts_characters_not_bytes() {
    assert_eq!(char_count(""), 0);
    assert_eq!(char_count("abc"), 3);
    assert_eq!(char_count("héllo"), 5);
    assert_eq!(char_count("日本語"), 3);
}

#[test]
fn find_char_gives_first_occurrence() {
    assert_eq!(find_char("a:b:c", ':'), Some(1));
    assert_eq!(find_char(":abc", ':'), Some(0));
    assert_eq!(find_char("abc:", ':'), Some(3));
    assert_eq!(find_char("abc", ':'), None);
    assert_eq!(find_char("", ':'), None);
}

#[test]
fn find_char_counts_in_characters() {
    assert_eq!(find_char("日本:語", ':'), Some(2));
}

#[test]
fn split_once_cuts_at_first_separator() {
    assert_eq!(split_once("group:text:hi", ':'), Some(("group", "text:hi")));
    assert_eq!(split_once("a:b", ':'), Some(("a", "b")));
    assert_eq!(split_once(":", ':'), Some(("", "")));
    assert_eq!(split_once(":tail", ':'), Some(("", "tail")));
    assert_eq!(split_once("head:", ':'), Some(("head", "")));
    assert_eq!(split_once("none", ':'), None);
    assert_eq!(split_once("", ':'), None);
}

#[test]
fn split_once_agrees_with_std() {
    let samples = [
        "", ":", "::", "a", "a:", ":a", "a:b", "a:b:c", "group:text:x", "日本:語:x", "no colon here",
        "trailing:", "http://x/y.png",
    ];
    for s in samples {
        assert_eq!(split_once(s, ':'), s.split_once(':'), "on {:?}", s);
    }
}

#[test]
fn same_text_compares_every_character() {
    assert!(same_text("", ""));
    assert!(same_text("quit", "quit"));
    assert!(!same_text("quit", "quiT"));
    assert!(!same_text("quit", "qui"));
    assert!(!same_text("qui", "quit"));
    assert!(!same_text("", "q"));
    assert!(same_text("日本語", "日本語"));
    assert!(!same_text("日本語", "日本誤"));
}

#[test]
fn whitespace_agrees_with_std_on_every_character() {
    let mut code: u32 = 0;
    while code <= 0x10FFFF {
        if let Some(c) = char::from_u32(code) {
            assert_eq!(whitespace(c), c.is_whitespace(), "on U+{:04X}", code);
        }
        code += 1;
    }
}

#[test]
fn trim_end_removes_trailing_white_space_only() {
    assert_eq!(trim_end("hello\n"), "hello");
    assert_eq!(trim_end("hello\r\n"), "hello");
    assert_eq!(trim_end("hello  \t \n"), "hello");
    assert_eq!(trim_end("  hello"), "  hello");
    assert_eq!(trim_end("  hello \n"), "  hello");
    assert_eq!(trim_end("a b \n"), "a b");
    assert_eq!(trim_end("hello"), "hello");
    assert_eq!(trim_end(""), "");
    assert_eq!(trim_end("\n"), "");
    assert_eq!(trim_end(" \t\r\n"), "");
    assert_eq!(trim_end("x\u{3000}\u{2028}\u{85}"), "x");
}

#[test]
fn trim_end_agrees_with_std() {
    let samples = [
        "", " ", "\n", "a", "a ", " a", " a ", "a\n\n", "a \u{a0}", "日本語\u{3000}", "a\u{200b}",
        "tab\t", "x \n y \n", "\u{1680}", "q\r\n",
    ];
    for s in samples {
        assert_eq!(trim_end(s), s.trim_end(), "on {:?}", s);
    }
}

#[test]
fn decimal_text_writes_base_ten() {
    assert_eq!(decimal_text(0), "0");
    assert_eq!(decimal_text(7), "7");
    assert_eq!(decimal_text(9), "9");
    assert_eq!(decimal_text(10), "10");
    assert_eq!(decimal_text(42), "42");
    assert_eq!(decimal_text(100), "100");
    assert_eq!(decimal_text(1234567890), "1234567890");
    assert_eq!(decimal_text(u64::MAX), "18446744073709551615");
}

#[test]
fn decimal_text_agrees_with_std() {
    let samples: [u64; 8] = [0, 1, 19, 99, 101, 65535, 4294967296, u64::MAX - 1];
    for n in samples {
        assert_eq!(decimal_text(n), n.to_string());
    }
}

#[test]
fn trim_end_twice_changes_nothing_more() {
    let samples = ["", " ", "a \n", " a b \t\r\n", "\u{2003}x\u{2003}\u{2003}"];
    for s in samples {
        let once = trim_end(s);
        assert_eq!(trim_end(once), once);
        assert!(s.starts_with(once));
        assert!(s[once.len()..].chars().all(whitespace));
        assert!(once.chars().last().map_or(true, |c| !whitespace(c)));
    }
}

#[test]
fn decimal_texts_of_different_numbers_differ() {
    let mut seen: Vec<String> = Vec::new();
    for n in 0..2000u64 {
        let text = decimal_text(n);
        assert!(!seen.contains(&text));
        assert_eq!(text.parse::<u64>(), Ok(n));
        assert!(n == 0 || !text.starts_with('0'));
        seen.push(text);
    }
}
