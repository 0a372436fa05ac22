use text_tools::char_counter::{count, Model, Msg, Props};

#[test]
fn counts_of_plain_text() {
    assert_eq!(count("hello world\nfoo"), Props { chars: 15, words: 3, lines: 1 });
}

#[test]
fn counts_of_empty_text() {
    assert_eq!(count(""), Props { chars: 0, words: 0, lines: 0 });
    assert_eq!(Props::default(), Props { chars: 0, words: 0, lines: 0 });
}

#[test]
fn characters_are_counted_not_bytes() {
    assert_eq!(count("日本語"), Props { chars: 3, words: 1, lines: 0 });
    assert_eq!(count("é😀"), Props { chars: 2, words: 1, lines: 0 });
}

#[test]
fn words_are_runs_between_whitespace() {
    assert_eq!(count("  a  b\t\tc \n").words, 3);
    assert_eq!(count("   ").words, 0);
    assert_eq!(count("a").words, 1);
    assert_eq!(count(" a").words, 1);
    assert_eq!(count("a ").words, 1);
    assert_eq!(count("a\u{3000}b\u{a0}c\u{2028}d").words, 4);
    assert_eq!(count("a-b_c").words, 1);
}

#[test]
fn lines_are_line_feeds() {
    assert_eq!(count("\n\n\n"), Props { chars: 3, words: 0, lines: 3 });
    assert_eq!(count("a\r\nb\r").lines, 1);
    assert_eq!(count("no newline").lines, 0);
}

#[test]
fn counts_agree_with_std() {
    for s in ["", "x", "The quick  brown\nfox\tjumps\r\nover\u{3000}the lazy dog\n", " \n "].iter() {
        let p = count(s);
        assert_eq!(p.chars, s.chars().count());
        assert_eq!(p.words, s.split_whitespace().count());
        assert_eq!(p.lines, s.chars().filter(|&c| c == '\n').count());
        assert!(p.words <= p.chars && p.lines <= p.chars);
    }
}

#[test]
fn model_recounts_on_input() {
    let mut m = Model::create(Props::default());
    assert_eq!(m.props(), Props { chars: 0, words: 0, lines: 0 });
    assert!(m.update(Msg::Input("one two\n".to_string())));
    assert_eq!(m.props(), Props { chars: 8, words: 2, lines: 1 });
    assert!(!m.change(Props { chars: 9, words: 9, lines: 9 }));
    assert_eq!(m.props(), Props { chars: 8, words: 2, lines: 1 });
}

fn listed_as_white_space(c: char) -> bool {
    ('\u{9}' <= c && c <= '\u{d}')
        || c == '\u{20}'
        || c == '\u{85}'
        || c == '\u{a0}'
        || c == '\u{1680}'
        || ('\u{2000}' <= c && c <= '\u{200a}')
        || c == '\u{2028}'
        || c == '\u{2029}'
        || c == '\u{202f}'
        || c == '\u{205f}'
        || c == '\u{3000}'
}

#[test]
fn whitespace_is_the_listed_set() {
    let mut listed = 0;
    for code in 0..=0x10ffffu32 {
        if let Some(c) = char::from_u32(code) {
            assert_eq!(c.is_whitespace(), listed_as_white_space(c), "U+{:04X}", code);
            if listed_as_white_space(c) {
                listed += 1;
            }
        }
    }
    assert_eq!(listed, 25);
}

#[test]
fn every_whitespace_character_separates_words() {
    for code in 0..=0x3100u32 {
        if let Some(c) = char::from_u32(code) {
            let text: String = ['a', c, 'b'].iter().collect();
            let expected = if listed_as_white_space(c) { 2 } else { 1 };
            assert_eq!(count(&text).words, expected, "U+{:04X}", code);
            assert_eq!(count(&text).chars, 3);
        }
    }
    assert_eq!(count("a\u{200b}b").words, 1);
    assert_eq!(count("a\u{180e}b").words, 1);
    assert_eq!(count("a\u{feff}b").words, 1);
}
