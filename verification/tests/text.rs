use pitter_os::text::{chars_of, is_whitespace, next_word, text_of};

#[test]
fn whitespace_is_what_std_calls_whitespace() {
    for code in 0u32..=0x10ffff {
        if let Some(c) = char::from_u32(code) {
            assert_eq!(is_whitespace(c), c.is_whitespace(), "U+{:04X}", code);
        }
    }
}

#[test]
fn whitespace_of_the_common_separators() {
    for c in [' ', '\t', '\n', '\r', '\u{b}', '\u{c}', '\u{a0}', '\u{3000}'] {
        assert!(is_whitespace(c));
    }
    for c in ['a', '0', '_', '-', '\u{0}', '\u{8}', '\u{e}', '\u{200b}', '\u{feff}'] {
        assert!(!is_whitespace(c));
    }
}

#[test]
fn chars_and_text_go_both_ways() {
    let text = "pid çã\u{1F600} 12";
    let chars = chars_of(text);
    assert_eq!(chars, text.chars().collect::<Vec<char>>());
    assert_eq!(text_of(&chars), text);
    assert_eq!(chars_of(""), Vec::<char>::new());
    assert_eq!(text_of(&[]), "");
}

#[test]
fn next_word_finds_each_word_in_turn() {
    let line = chars_of("  12 ab\t\tz ");
    assert_eq!(next_word(&line, 0), (2, 4));
    assert_eq!(next_word(&line, 2), (2, 4));
    assert_eq!(next_word(&line, 3), (3, 4));
    assert_eq!(next_word(&line, 4), (5, 7));
    assert_eq!(next_word(&line, 7), (9, 10));
    assert_eq!(next_word(&line, 10), (11, 11));
    assert_eq!(next_word(&line, 11), (11, 11));
}

#[test]
fn next_word_of_nothing_is_empty() {
    assert_eq!(next_word(&[], 0), (0, 0));
    let blank = chars_of(" \n\t");
    assert_eq!(next_word(&blank, 0), (3, 3));
}

#[test]
fn next_word_walks_like_split_whitespace() {
    let samples = [
        "",
        "one",
        " one  two\u{a0}three\u{2003}four ",
        "a\nb\r\nc",
        "\u{3000}x\u{85}y\u{1680}",
        "1234 nginx R 2048",
    ];
    for sample in samples {
        let chars = chars_of(sample);
        let mut found: Vec<String> = Vec::new();
        let mut from = 0;
        loop {
            let (start, end) = next_word(&chars, from);
            if start == end {
                break;
            }
            found.push(text_of(&chars[start..end]));
            from = end;
        }
        let expected: Vec<String> = sample.split_whitespace().map(String::from).collect();
        assert_eq!(found, expected, "{:?}", sample);
    }
}
