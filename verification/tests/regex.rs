use grex::{Feature, RegExpBuilder};
use text_tools::regex::{generate, Model, Msg, Options};

#[test]
fn empty_text_gives_empty_expression() {
    assert_eq!(generate("", &Options::none()), "");
    let mut all = Options::none();
    all.digit = true;
    all.repetition = true;
    assert_eq!(generate("", &all), "");
}

#[test]
fn plain_expressions() {
    assert_eq!(generate("a\nb\nc", &Options::none()), "^[a-c]$");
    assert_eq!(generate("abc", &Options::none()), "^abc$");
    assert_eq!(generate("a\naa\naaa", &Options::none()), "^a(?:aa?)?$");
    assert_eq!(generate("\n", &Options::none()), "^$");
}

#[test]
fn line_endings_are_not_part_of_test_cases() {
    assert_eq!(generate("abc\r\n", &Options::none()), "^abc$");
    assert_eq!(generate("a\r\nb\n", &Options::none()), generate("a\nb", &Options::none()));
}

#[test]
fn conversions_are_handed_on() {
    let mut o = Options::none();
    o.digit = true;
    assert_eq!(generate("1\n2\n3", &o), "^\\d$");
    let mut o = Options::none();
    o.repetition = true;
    assert_eq!(generate("aaaa", &o), "^a{4}$");
    let mut o = Options::none();
    o.case_insensitivity = true;
    assert_eq!(generate("ABC", &o), "(?i)^abc$");
    let mut o = Options::none();
    o.capturing_group = true;
    assert_eq!(generate("a\naa\naaa", &o), "^a(aa?)?$");
}

#[test]
fn agrees_with_the_builder() {
    let text = "I   ♥♥♥ 36 and ٣ and 💩💩.\nfoo bar 42\n";
    let cases: Vec<&str> = text.lines().collect();
    assert_eq!(generate(text, &Options::none()), RegExpBuilder::from(&cases).build());
    let mut o = Options::none();
    o.digit = true;
    o.space = true;
    o.word = true;
    o.repetition = true;
    assert_eq!(
        generate(text, &o),
        RegExpBuilder::from(&cases)
            .with_conversion_of(&[Feature::Digit, Feature::Space, Feature::Word, Feature::Repetition])
            .build()
    );
}

#[test]
fn features_follow_the_order_of_the_switches() {
    assert_eq!(Options::none().features(), Vec::<Feature>::new());
    assert_eq!(Options::default().features(), Vec::<Feature>::new());
    let all = Options {
        digit: true,
        non_digit: true,
        space: true,
        non_space: true,
        word: true,
        non_word: true,
        repetition: true,
        case_insensitivity: true,
        capturing_group: true,
    };
    assert_eq!(
        all.features(),
        vec![
            Feature::Digit,
            Feature::NonDigit,
            Feature::Space,
            Feature::NonSpace,
            Feature::Word,
            Feature::NonWord,
            Feature::Repetition,
            Feature::CaseInsensitivity,
            Feature::CapturingGroup,
        ]
    );
    let mut some = Options::none();
    some.capturing_group = true;
    some.non_space = true;
    assert_eq!(some.features(), vec![Feature::NonSpace, Feature::CapturingGroup]);
}

#[test]
fn toggle_flips_one_switch() {
    let mut o = Options::none();
    assert!(o.toggle(Feature::Word));
    assert!(o.word);
    assert_eq!(o.features(), vec![Feature::Word]);
    assert!(!o.toggle(Feature::Word));
    assert_eq!(o, Options::none());
    for f in [
        Feature::Digit,
        Feature::NonDigit,
        Feature::Space,
        Feature::NonSpace,
        Feature::Word,
        Feature::NonWord,
        Feature::Repetition,
        Feature::CaseInsensitivity,
        Feature::CapturingGroup,
    ]
    .iter()
    {
        let mut o = Options::none();
        assert!(o.toggle(f.clone()));
        assert_eq!(o.features(), vec![f.clone()]);
    }
}

#[test]
fn model_generates_on_input() {
    let mut m = Model::create();
    assert_eq!(m.get_output(), "");
    assert_eq!(m.get_options(), Options::none());
    assert!(m.update(Msg::Input("1\n2".to_string())));
    assert_eq!(m.get_output(), "^[12]$");
    assert!(m.toggle(Feature::Digit));
    assert_eq!(m.get_output(), "^[12]$");
    m.update(Msg::Input("1\n2".to_string()));
    assert_eq!(m.get_output(), "^\\d$");
    m.update(Msg::Input(String::new()));
    assert_eq!(m.get_output(), "");
    assert!(!m.change());
}

#[test]
fn expressions_stand_between_anchors() {
    let texts = ["a", "\n", "x\ny\nzz", "1 2  3\r\n4", "日本\n語", "^$", "(?i)"];
    let mut switches = vec![Options::none()];
    for f in [
        Feature::Digit,
        Feature::NonDigit,
        Feature::Space,
        Feature::NonSpace,
        Feature::Word,
        Feature::NonWord,
        Feature::Repetition,
        Feature::CapturingGroup,
    ]
    .iter()
    {
        let mut o = Options::none();
        o.toggle(f.clone());
        switches.push(o);
    }
    for text in texts.iter() {
        for o in switches.iter() {
            let out = generate(text, o);
            assert!(out.len() >= 2, "{:?}", out);
            assert!(out.starts_with('^'), "{:?}", out);
            assert!(out.ends_with('$'), "{:?}", out);
        }
    }
}

#[test]
fn case_insensitivity_puts_the_flag_first() {
    for text in ["a", "\n", "ABC\nabc", "Hello World\n123"].iter() {
        let mut o = Options::none();
        o.case_insensitivity = true;
        let out = generate(text, &o);
        assert!(out.starts_with("(?i)^"), "{:?}", out);
        assert!(out.ends_with('$'), "{:?}", out);
        o.digit = true;
        o.capturing_group = true;
        let out = generate(text, &o);
        assert!(out.starts_with("(?i)^"), "{:?}", out);
        assert!(out.ends_with('$'), "{:?}", out);
        o.case_insensitivity = false;
        let out = generate(text, &o);
        assert!(out.starts_with('^'), "{:?}", out);
    }
}

#[test]
fn output_is_empty_only_for_empty_text() {
    assert_eq!(generate("", &Options::none()), "");
    assert_ne!(generate("\n", &Options::none()), "");
    assert_ne!(generate(" ", &Options::none()), "");
}

#[test]
fn plain_expression_is_the_same_on_every_call() {
    let texts = [
        "xa\nxb\nya\nyb\nzb\nza",
        "x \nx!\ny\u{3000}\ny!",
        "ab\ncb\nabb\ncbb\na\nc\ndab\ndcb",
        "aaa\naab\naba\nabb\nbaa\nbab\nbba\nbbb\ncaa\ncbb",
        "foo1\nbar1\nfoo22\nbar22\nbaz1\nqux22\nq\nb",
    ];
    let expected = [
        "^[x-z][ab]$",
        "^(?:x[ !]|y[!\u{3000}])$",
        "^(?:[ac]bb|d[ac]b|[ac]b?)$",
        "^(?:[ab][ab][ab]|c(?:aa|bb))$",
        "^(?:qux22|bar(?:22|1)|foo(?:22|1)|baz1|[bq])$",
    ];
    for (text, want) in texts.iter().zip(expected.iter()) {
        for _ in 0..100 {
            assert_eq!(generate(text, &Options::none()), *want);
        }
    }
}

#[test]
fn plain_expression_ignores_order_and_repeats_of_lines() {
    let a = generate("b\na\nc\na", &Options::none());
    let b = generate("a\nb\nc", &Options::none());
    assert_eq!(a, b);
    assert_eq!(a, "^[a-c]$");
}
