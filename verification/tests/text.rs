use type_env::text::{char_is_whitespace, str_eq, tokenize};

#[test]
fn whitespace_is_what_unicode_calls_white_space() {
    for code in 0..=0x10FFFFu32 {
        if let Some(c) = char::from_u32(code) {
            assert_eq!(char_is_whitespace(c), c.is_whitespace(), "U+{:04X}", code);
        }
    }
}

#[test]
fn whitespace_of_named_characters() {
    for c in [' ', '\t', '\n', '\u{b}', '\u{c}', '\r', '\u{85}', '\u{a0}', '\u{1680}'] {
        assert!(char_is_whitespace(c));
    }
    for c in ['\u{2000}', '\u{200a}', '\u{2028}', '\u{2029}', '\u{202f}', '\u{205f}', '\u{3000}'] {
        assert!(char_is_whitespace(c));
    }
    for c in ['a', '0', '_', '\u{8}', '\u{e}', '\u{1f}', '\u{200b}', '\u{feff}', '\u{180e}'] {
        assert!(!char_is_whitespace(c));
    }
}

#[test]
fn tokenize_splits_on_runs_of_whitespace() {
    assert_eq!(tokenize("declare_var x Int"), vec!["declare_var", "x", "Int"]);
    assert_eq!(tokenize("  call\tadd \r\n Int  "), vec!["call", "add", "Int"]);
    assert_eq!(tokenize("show"), vec!["show"]);
    assert_eq!(tokenize("a"), vec!["a"]);
    assert_eq!(tokenize(" a"), vec!["a"]);
    assert_eq!(tokenize("a "), vec!["a"]);
    assert_eq!(tokenize("a b"), vec!["a", "b"]);
    assert_eq!(tokenize("λx\u{3000}→\u{a0}y"), vec!["λx", "→", "y"]);
}

#[test]
fn tokenize_of_a_blank_line_is_empty() {
    for line in ["", " ", "\t\t", " \n ", "\u{2028}\u{2029}"] {
        assert_eq!(tokenize(line), Vec::<&str>::new());
    }
}

#[test]
fn tokenize_agrees_with_split_whitespace() {
    let lines = [
        "",
        "x",
        " x",
        "x ",
        "  declare_func   f  Int   Bool ",
        "call f\tInt\nBool\r\nFloat",
        "one\u{85}two\u{1680}three\u{2000}four\u{200a}five\u{202f}six\u{205f}seven",
        "zero\u{200b}width stays\u{feff}inside",
        "ünïcödé wörds ärë kept whole",
        "\u{3000}leading and trailing\u{3000}",
        "a  b   c    d     e",
    ];
    for line in lines {
        let expected: Vec<&str> = line.split_whitespace().collect();
        assert_eq!(tokenize(line), expected, "{:?}", line);
    }
}

#[test]
fn tokenize_then_join_then_tokenize_is_stable() {
    let words = vec!["declare_func", "f", "Int", "Bool"];
    let line = words.join(" ");
    assert_eq!(tokenize(&line), words);
    assert_eq!(tokenize(&tokenize("  a \t b  ").join(" ")), vec!["a", "b"]);
}

#[test]
fn str_eq_compares_character_for_character() {
    assert!(str_eq("", ""));
    assert!(str_eq("call", "call"));
    assert!(str_eq("héllo", "héllo"));
    assert!(!str_eq("call", "show"));
    assert!(!str_eq("call", "Call"));
    assert!(!str_eq("call", "calls"));
    assert!(!str_eq("calls", "call"));
    assert!(!str_eq("", " "));
    assert!(!str_eq("e\u{301}", "\u{e9}"));
    let owned = String::from("declare_var");
    assert!(str_eq(&owned, "declare_var"));
}
