use text_tools::url_encode::{Model, Msg, Props};

fn fresh_page() -> Model {
    Model::create(Props::default())
}

fn encode(text: &str) -> String {
    let mut m = fresh_page();
    m.update(Msg::Input(text.to_string()));
    assert!(!m.props().error);
    assert_eq!(m.props().input, text);
    m.props().output.clone()
}

fn decode(text: &str) -> Option<String> {
    let mut m = fresh_page();
    m.update(Msg::Encode(false));
    m.update(Msg::Input(text.to_string()));
    assert_eq!(m.props().input, text);
    if m.props().error {
        None
    } else {
        Some(m.props().output.clone())
    }
}

#[test]
fn starts_on_the_encode_tab() {
    let m = fresh_page();
    assert!(m.props().encode);
    assert!(!m.props().error);
    assert_eq!(m.props().input, "");
    assert_eq!(m.props().output, "");
}

#[test]
fn encode_escapes_all_but_unreserved() {
    assert_eq!(encode("this that"), "this%20that");
    assert_eq!(encode(""), "");
    assert_eq!(encode("AZaz09-._~"), "AZaz09-._~");
    assert_eq!(encode("a+b&c=d/e?f#g%"), "a%2Bb%26c%3Dd%2Fe%3Ff%23g%25");
    assert_eq!(encode("日本"), "%E6%97%A5%E6%9C%AC");
    assert_eq!(encode("\n\u{7f}*"), "%0A%7F%2A");
    assert_eq!(encode("@[`{"), "%40%5B%60%7B");
}

#[test]
fn decode_reads_escapes() {
    assert_eq!(decode("this%20that").unwrap(), "this that");
    assert_eq!(decode("%E6%97%A5%e6%9c%ac").unwrap(), "日本");
    assert_eq!(decode("a+b").unwrap(), "a+b");
    assert_eq!(decode("").unwrap(), "");
    assert_eq!(decode("%41%4a%6A").unwrap(), "AJj");
}

#[test]
fn decode_keeps_malformed_escapes() {
    assert_eq!(decode("100%").unwrap(), "100%");
    assert_eq!(decode("%4").unwrap(), "%4");
    assert_eq!(decode("%zz").unwrap(), "%zz");
    assert_eq!(decode("%4z").unwrap(), "%4z");
    assert_eq!(decode("%%41").unwrap(), "%A");
    assert_eq!(decode("%4%41").unwrap(), "%4A");
    assert_eq!(decode("%%").unwrap(), "%%");
    assert_eq!(decode("日%").unwrap(), "日%");
}

#[test]
fn decode_rejects_bytes_that_are_not_utf8() {
    assert_eq!(decode("%ff"), None);
    assert_eq!(decode("%E6%97"), None);
    assert_eq!(decode("%C0%80"), None);
    assert_eq!(decode("%ED%A0%80"), None);
}

#[test]
fn failed_decode_raises_error_and_keeps_output() {
    let mut m = fresh_page();
    m.update(Msg::Encode(false));
    m.update(Msg::Input("%41".to_string()));
    assert_eq!(m.props().output, "A");
    assert!(m.update(Msg::Input("%ff".to_string())));
    assert!(m.props().error);
    assert_eq!(m.props().input, "%ff");
    assert_eq!(m.props().output, "A");
    assert_eq!(m.encode_tab_classes(), vec!["is-danger"]);
    m.update(Msg::Input("%42".to_string()));
    assert!(!m.props().error);
    assert_eq!(m.props().output, "B");
}

#[test]
fn switching_tabs_swaps_the_texts() {
    let mut m = fresh_page();
    m.update(Msg::Input("a b".to_string()));
    assert_eq!(m.props().output, "a%20b");
    assert!(m.update(Msg::Encode(false)));
    assert!(!m.props().encode);
    assert_eq!(m.props().input, "a%20b");
    assert_eq!(m.props().output, "a b");
    m.update(Msg::Encode(false));
    assert_eq!(m.props().input, "a%20b");
    assert_eq!(m.props().output, "a b");
    m.update(Msg::Encode(true));
    assert!(m.props().encode);
    assert_eq!(m.props().input, "a b");
    assert_eq!(m.props().output, "a%20b");
}

#[test]
fn decoding_an_encoding_gives_the_text_back() {
    for text in ["", "plain", "a b+c%d", "日本語 テキスト", "%41", "😀\n\t", "~._-"].iter() {
        assert_eq!(decode(&encode(text)).unwrap(), *text);
    }
}

#[test]
fn tab_classes() {
    let mut m = fresh_page();
    assert_eq!(m.encode_tab_classes(), vec!["is-active"]);
    assert_eq!(m.decode_tab_class(), "");
    m.update(Msg::Encode(false));
    assert_eq!(m.encode_tab_classes(), Vec::<&str>::new());
    assert_eq!(m.decode_tab_class(), "is-active");
    let m = Model::create(Props {
        encode: true,
        input: String::new(),
        output: String::new(),
        error: true,
    });
    assert_eq!(m.encode_tab_classes(), vec!["is-danger", "is-active"]);
}

#[test]
fn url_change_ignores_new_props() {
    let mut m = fresh_page();
    m.update(Msg::Input("x y".to_string()));
    assert!(!m.change(Props::default()));
    assert_eq!(m.props().output, "x%20y");
}
