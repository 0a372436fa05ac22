use text_tools::base_converter::{Field, FieldStatus, Model, Msg, Props, BASES};
use text_tools::natural::Natural;
use text_tools::radix::{check_numeral, is_radix_digit, parse, to_string, to_upper_char, uppercase};

fn fresh() -> Model {
    Model::create(Props::default())
}

fn texts(model: &Model) -> Vec<String> {
    BASES.iter().map(|&b| model.field_text(b)).collect()
}

#[test]
fn decimal_255_shows_in_every_base() {
    let mut m = fresh();
    m.on_edit(10, "255");
    assert_eq!(m.field_text(2), "11111111");
    assert_eq!(m.field_text(8), "377");
    assert_eq!(m.field_text(10), "255");
    assert_eq!(m.field_text(16), "ff");
    assert_eq!(m.field_text(36), "73");
    assert_eq!(m.error_radix(), None);
    assert_eq!(m.value().unwrap().to_bytes_le(), vec![255u8]);
}

#[test]
fn empty_input_clears_every_field() {
    for &r in BASES.iter() {
        let mut m = fresh();
        m.on_edit(10, "12345");
        m.on_edit(r, "");
        assert!(m.value().is_none());
        assert_eq!(m.error_radix(), None);
        assert_eq!(texts(&m), vec!["", "", "", "", ""]);
        for &b in BASES.iter() {
            assert_eq!(m.field_status(b), FieldStatus::Empty);
        }
    }
}

#[test]
fn empty_input_clears_a_pending_error() {
    let mut m = fresh();
    m.on_edit(16, "xyz");
    assert_eq!(m.error_radix(), Some(16));
    m.on_edit(2, "");
    assert_eq!(m.error_radix(), None);
    assert_eq!(texts(&m), vec!["", "", "", "", ""]);
}

#[test]
fn invalid_hex_keeps_value_and_raw_text() {
    let mut m = fresh();
    m.on_edit(10, "255");
    m.on_edit(16, "12g4");
    assert_eq!(m.error_radix(), Some(16));
    assert_eq!(m.value().unwrap().to_bytes_le(), vec![255u8]);
    assert_eq!(m.field_text(16), "12g4");
    assert_eq!(m.field_text(2), "11111111");
    assert_eq!(m.field_text(8), "377");
    assert_eq!(m.field_text(10), "255");
    assert_eq!(m.field_text(36), "73");
    assert!(m.is_error(16));
    for &b in [2u32, 8, 10, 36].iter() {
        assert!(!m.is_error(b));
        assert_eq!(m.field_status(b), FieldStatus::Valid);
    }
    assert_eq!(m.field_status(16), FieldStatus::Erroring);
}

#[test]
fn invalid_input_without_prior_value() {
    let mut m = fresh();
    m.on_edit(16, "12g4");
    assert_eq!(m.error_radix(), Some(16));
    assert!(m.value().is_none());
    assert_eq!(m.field_text(16), "12g4");
    assert_eq!(m.field_text(10), "");
    assert_eq!(m.field_status(10), FieldStatus::Empty);
}

#[test]
fn rejected_text_is_not_recased() {
    let mut m = fresh();
    m.toggle_uppercase();
    m.on_edit(10, "12a");
    assert_eq!(m.field_text(10), "12a");
}

#[test]
fn valid_edit_clears_error() {
    let mut m = fresh();
    m.on_edit(2, "102");
    assert_eq!(m.error_radix(), Some(2));
    m.on_edit(8, "17");
    assert_eq!(m.error_radix(), None);
    assert_eq!(m.field_text(2), "1111");
    assert_eq!(m.field_text(10), "15");
}

#[test]
fn zero_displays_as_single_digit() {
    let mut m = fresh();
    m.on_edit(10, "0");
    assert_eq!(texts(&m), vec!["0", "0", "0", "0", "0"]);
    assert!(m.value().is_some());
}

#[test]
fn leading_zeros_are_dropped() {
    let mut m = fresh();
    m.on_edit(16, "000ff");
    assert_eq!(m.field_text(16), "ff");
    assert_eq!(m.field_text(10), "255");
    m.on_edit(2, "0000");
    assert_eq!(texts(&m), vec!["0", "0", "0", "0", "0"]);
}

#[test]
fn uppercase_toggle_changes_only_letters() {
    let mut m = fresh();
    m.on_edit(10, "255");
    assert!(!m.uppercase());
    assert_eq!(m.field_text(16), "ff");
    m.toggle_uppercase();
    assert!(m.uppercase());
    assert_eq!(m.field_text(16), "FF");
    assert_eq!(m.field_text(10), "255");
    assert_eq!(m.field_text(2), "11111111");
    assert_eq!(m.field_text(8), "377");
    assert_eq!(m.value().unwrap().to_bytes_le(), vec![255u8]);
    assert_eq!(m.error_radix(), None);
    m.toggle_uppercase();
    assert_eq!(m.field_text(16), "ff");
}

#[test]
fn uppercase_applies_to_base_36() {
    let mut m = fresh();
    m.on_edit(36, "rust");
    assert_eq!(m.field_text(36), "rust");
    m.toggle_uppercase();
    assert_eq!(m.field_text(36), "RUST");
    assert_eq!(m.field_text(10), "1299629");
}

#[test]
fn digits_are_read_in_either_case() {
    let mut m = fresh();
    m.on_edit(16, "DeadBeef");
    assert_eq!(m.error_radix(), None);
    assert_eq!(m.field_text(16), "deadbeef");
    assert_eq!(m.field_text(10), "3735928559");
}

#[test]
fn characters_outside_the_alphabet_are_rejected() {
    for text in ["+5", "-5", "1_000", "_", " 7", "7 ", "1.5", "٣", "１２"].iter() {
        let mut m = fresh();
        m.on_edit(10, "42");
        m.on_edit(10, text);
        assert_eq!(m.error_radix(), Some(10), "{:?}", text);
        assert_eq!(m.field_text(10), *text);
        assert_eq!(m.field_text(16), "2a");
    }
}

#[test]
fn digit_must_be_below_radix() {
    let mut m = fresh();
    m.on_edit(2, "2");
    assert_eq!(m.error_radix(), Some(2));
    m.on_edit(8, "8");
    assert_eq!(m.error_radix(), Some(8));
    m.on_edit(10, "a");
    assert_eq!(m.error_radix(), Some(10));
    m.on_edit(16, "g");
    assert_eq!(m.error_radix(), Some(16));
    m.on_edit(36, "z");
    assert_eq!(m.error_radix(), None);
    assert_eq!(m.field_text(10), "35");
}

#[test]
fn every_pair_of_bases_agrees() {
    let samples = ["0", "1", "7", "35", "36", "255", "65536", "18446744073709551616",
        "340282366920938463463374607431768211455123456789"];
    for dec in samples.iter() {
        let n = parse(10, dec).unwrap();
        for &r1 in BASES.iter() {
            let text = to_string(r1, &n);
            let mut m = fresh();
            m.on_edit(r1, &text);
            for &r2 in BASES.iter() {
                assert_eq!(m.field_text(r2), to_string(r2, &n));
            }
            assert_eq!(m.field_text(10), *dec);
        }
    }
}

#[test]
fn parse_inverts_to_string() {
    for &r in BASES.iter() {
        for bytes in [vec![], vec![0u8], vec![1], vec![255], vec![0, 1], vec![1, 2, 3, 4, 5, 6, 7, 8, 9],
            vec![255; 40], vec![7, 0, 0]].iter() {
            let n = Natural::from_bytes_le(bytes.clone());
            let text = to_string(r, &n);
            let back = parse(r, &text).unwrap();
            assert_eq!(to_string(r, &back), text);
            let mut trimmed = bytes.clone();
            while trimmed.len() > 1 && *trimmed.last().unwrap() == 0 {
                trimmed.pop();
            }
            if trimmed.is_empty() {
                trimmed.push(0);
            }
            assert_eq!(back.to_bytes_le(), trimmed);
        }
    }
}

#[test]
fn to_string_exact_values() {
    let n = Natural::from_bytes_le(vec![101, 4]);
    assert_eq!(to_string(10, &n), "1125");
    assert_eq!(to_string(2, &n), "10001100101");
    assert_eq!(to_string(8, &n), "2145");
    assert_eq!(to_string(16, &n), "465");
    assert_eq!(to_string(36, &n), "v9");
    assert_eq!(to_string(3, &n), "1112200");
    assert_eq!(n.to_bytes_le(), vec![101, 4]);
}

#[test]
fn parse_exact_values() {
    assert_eq!(parse(10, "1125").unwrap().to_bytes_le(), vec![101, 4]);
    assert_eq!(parse(16, "ABCD").unwrap().to_bytes_le(), vec![0xcd, 0xab]);
    assert_eq!(parse(36, "zz").unwrap().to_bytes_le(), vec![0x0f, 0x05]);
    assert_eq!(parse(2, "100000000").unwrap().to_bytes_le(), vec![0, 1]);
    assert!(parse(16, "G").is_none());
    assert!(parse(10, "").is_none());
    assert!(parse(10, "+1").is_none());
    assert!(parse(10, "1_0").is_none());
}

#[test]
fn check_numeral_cases() {
    assert!(check_numeral("0123456789", 10));
    assert!(!check_numeral("", 10));
    assert!(!check_numeral("12a", 10));
    assert!(check_numeral("12a", 11));
    assert!(check_numeral("Zz09", 36));
    assert!(!check_numeral("é", 36));
    assert!(is_radix_digit('f', 16));
    assert!(is_radix_digit('F', 16));
    assert!(!is_radix_digit('g', 16));
    assert!(!is_radix_digit('/', 36));
    assert!(!is_radix_digit(':', 36));
    assert!(!is_radix_digit('@', 36));
    assert!(!is_radix_digit('[', 36));
    assert!(!is_radix_digit('`', 36));
    assert!(!is_radix_digit('{', 36));
}

#[test]
fn uppercase_maps_ascii_letters_only() {
    assert_eq!(uppercase("deadbeef09"), "DEADBEEF09");
    assert_eq!(uppercase("aZ`{é"), "AZ`{é");
    assert_eq!(to_upper_char('a'), 'A');
    assert_eq!(to_upper_char('z'), 'Z');
    assert_eq!(to_upper_char('5'), '5');
}

#[test]
fn update_dispatches_messages() {
    let mut m = fresh();
    assert!(m.update(Msg::Input { base: 10, text: "255".to_string() }));
    assert_eq!(m.field_text(16), "ff");
    assert!(m.update(Msg::Uppercase));
    assert_eq!(m.field_text(16), "FF");
    assert!(m.update(Msg::Input { base: 8, text: "9".to_string() }));
    assert_eq!(m.error_radix(), Some(8));
    assert_eq!(m.field_text(8), "9");
    assert_eq!(m.field_text(16), "FF");
}

#[test]
fn change_ignores_new_props() {
    let mut m = fresh();
    m.on_edit(10, "10");
    let render = m.change(Props { uppercase: true, value: None, error: Some(2) });
    assert!(!render);
    assert_eq!(m.field_text(16), "a");
    assert_eq!(m.error_radix(), None);
}

#[test]
fn create_takes_over_props() {
    let m = Model::create(Props {
        uppercase: true,
        value: Some(Natural::from_bytes_le(vec![0xef, 0xbe])),
        error: None,
    });
    assert_eq!(m.field_text(16), "BEEF");
    assert_eq!(m.field_text(10), "48879");
}

#[test]
fn fields_lists_every_base_in_order() {
    let mut m = fresh();
    m.on_edit(10, "255");
    m.on_edit(8, "789");
    let fields: Vec<Field> = m.fields();
    assert_eq!(fields.len(), 5);
    let bases: Vec<u32> = fields.iter().map(|f| f.base).collect();
    assert_eq!(bases, vec![2, 8, 10, 16, 36]);
    let values: Vec<&str> = fields.iter().map(|f| f.value.as_str()).collect();
    assert_eq!(values, vec!["11111111", "789", "255", "ff", "73"]);
    assert_eq!(fields[0].classes, vec!["input"]);
    assert_eq!(fields[1].classes, vec!["input", "is-danger"]);
    assert_eq!(m.field_classes(8), vec!["input", "is-danger"]);
    assert_eq!(m.field_classes(16), vec!["input"]);
}
