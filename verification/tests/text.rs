use blog_api::text::{char_is_whitespace, chars_of, same_text, split_whitespace};

#[test]
fn split_whitespace_gives_the_words() {
    assert_eq!(split_whitespace("Basic abc"), vec!["Basic", "abc"]);
    assert_eq!(split_whitespace("  a  bb \t ccc\n"), vec!["a", "bb", "ccc"]);
    assert_eq!(split_whitespace("one"), vec!["one"]);
    assert_eq!(split_whitespace(""), Vec::<String>::new());
    assert_eq!(split_whitespace(" \t\r\n"), Vec::<String>::new());
    assert_eq!(split_whitespace("h\u{e9} \u{1f600}\u{2003}x"), vec!["h\u{e9}", "\u{1f600}", "x"]);
}

#[test]
fn split_whitespace_agrees_with_std() {
    let samples = [
        "",
        " ",
        "a",
        " a",
        "a ",
        "a b",
        "a\u{b}b\u{c}c",
        "x\u{85}y\u{a0}z",
        "\u{1680}p\u{2000}q\u{200a}r\u{2028}s\u{2029}t\u{202f}u\u{205f}v\u{3000}w",
        "no\u{200b}split\u{feff}here\u{180e}either",
        "\u{1c}a\u{1d}b\u{1e}c\u{1f}",
    ];
    for sample in samples {
        let expected: Vec<String> = sample.split_whitespace().map(|w| w.to_owned()).collect();
        assert_eq!(split_whitespace(sample), expected);
    }
}

#[test]
fn whitespace_is_what_std_calls_whitespace() {
    let mut code: u32 = 0;
    while code <= 0x3100 {
        if let Some(c) = char::from_u32(code) {
            assert_eq!(char_is_whitespace(c), c.is_whitespace());
        }
        code += 1;
    }
    assert!(!char_is_whitespace('\u{feff}'));
    assert!(!char_is_whitespace('\u{10ffff}'));
}

#[test]
fn same_text_compares_characters() {
    assert!(same_text("", ""));
    assert!(same_text("Basic", "Basic"));
    assert!(!same_text("Basic", "basic"));
    assert!(!same_text("Basic", "Basi"));
    assert!(!same_text("Basi", "Basic"));
    assert!(same_text("h\u{e9}llo", "h\u{e9}llo"));
    assert!(!same_text("h\u{e9}llo", "he\u{301}llo"));
}

#[test]
fn chars_of_gives_the_characters() {
    assert_eq!(chars_of("a:b"), vec!['a', ':', 'b']);
    assert_eq!(chars_of(""), Vec::<char>::new());
    assert_eq!(chars_of("h\u{e9}\u{1f600}"), vec!['h', '\u{e9}', '\u{1f600}']);
}
