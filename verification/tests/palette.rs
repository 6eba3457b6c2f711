use base16_templater::failure::{Failure, Kind};
use base16_templater::palette::{context_name, field_name, SchemeInput, SchemeOutput, FIELD_COUNT};

const NAMES: [&str; 18] = [
    "scheme", "author", "base00", "base01", "base02", "base03", "base04", "base05", "base06",
    "base07", "base08", "base09", "base0A", "base0B", "base0C", "base0D", "base0E", "base0F",
];

const CONTEXT_NAMES: [&str; 18] = [
    "scheme-name",
    "scheme-author",
    "base00-hex",
    "base01-hex",
    "base02-hex",
    "base03-hex",
    "base04-hex",
    "base05-hex",
    "base06-hex",
    "base07-hex",
    "base08-hex",
    "base09-hex",
    "base0A-hex",
    "base0B-hex",
    "base0C-hex",
    "base0D-hex",
    "base0E-hex",
    "base0F-hex",
];

fn values() -> Vec<String> {
    let mut all = vec!["Test".to_string(), "A".to_string()];
    for slot in 0..16 {
        all.push(format!("#{:02x}{:02x}{:02x}", slot, slot * 3, slot * 7));
    }
    all
}

fn yaml_of(pairs: &[(String, String)]) -> Vec<u8> {
    let mut text = String::new();
    for (name, value) in pairs {
        text.push_str(&format!("{}: \"{}\"\n", name, value));
    }
    text.into_bytes()
}

fn full_pairs() -> Vec<(String, String)> {
    NAMES.iter().map(|name| name.to_string()).zip(values()).collect()
}

fn fields_of(scheme: &SchemeInput) -> Vec<String> {
    vec![
        scheme.scheme.clone(),
        scheme.author.clone(),
        scheme.base00.clone(),
        scheme.base01.clone(),
        scheme.base02.clone(),
        scheme.base03.clone(),
        scheme.base04.clone(),
        scheme.base05.clone(),
        scheme.base06.clone(),
        scheme.base07.clone(),
        scheme.base08.clone(),
        scheme.base09.clone(),
        scheme.base0a.clone(),
        scheme.base0b.clone(),
        scheme.base0c.clone(),
        scheme.base0d.clone(),
        scheme.base0e.clone(),
        scheme.base0f.clone(),
    ]
}

fn malformed_detail(made: Result<SchemeInput, Failure>) -> String {
    match made {
        Err(Failure::MalformedInput(detail)) => detail,
        other => panic!("expected a malformed scheme, got {:?}", other),
    }
}

#[test]
fn names_are_the_documented_ones() {
    assert_eq!(FIELD_COUNT, 18);
    for index in 0..FIELD_COUNT {
        assert_eq!(field_name(index), NAMES[index]);
        assert_eq!(context_name(index), CONTEXT_NAMES[index]);
    }
}

#[test]
fn from_fields_takes_the_values_in_slot_order() {
    let found: Vec<Option<String>> = values().into_iter().map(Some).collect();
    let scheme = SchemeInput::from_fields(&found).unwrap();
    assert_eq!(fields_of(&scheme), values());
    assert_eq!(scheme.base0a, "#0a1e46");
}

#[test]
fn from_fields_ignores_what_follows_the_eighteen() {
    let mut found: Vec<Option<String>> = values().into_iter().map(Some).collect();
    found.push(None);
    found.push(Some("extra".to_string()));
    let scheme = SchemeInput::from_fields(&found).unwrap();
    assert_eq!(fields_of(&scheme), values());
}

#[test]
fn from_fields_names_the_first_missing_field() {
    for missing in 0..18 {
        let mut found: Vec<Option<String>> = values().into_iter().map(Some).collect();
        found[missing] = None;
        if missing < 17 {
            found[17] = None;
        }
        assert_eq!(malformed_detail(SchemeInput::from_fields(&found)), NAMES[missing]);
    }
}

#[test]
fn from_fields_refuses_a_short_list() {
    let found: Vec<Option<String>> = values().into_iter().take(5).map(Some).collect();
    assert_eq!(malformed_detail(SchemeInput::from_fields(&found)), "base03");
    assert_eq!(malformed_detail(SchemeInput::from_fields(&Vec::new())), "scheme");
}

#[test]
fn from_yaml_reads_all_eighteen_fields() {
    let scheme = SchemeInput::from_yaml(&yaml_of(&full_pairs())).unwrap();
    assert_eq!(fields_of(&scheme), values());
}

#[test]
fn from_yaml_ignores_other_fields_and_order() {
    let mut pairs = full_pairs();
    pairs.reverse();
    pairs.push(("description".to_string(), "more".to_string()));
    let mut bytes = yaml_of(&pairs);
    bytes.extend_from_slice(b"numbers: [1, 2]\n");
    let scheme = SchemeInput::from_yaml(&bytes).unwrap();
    assert_eq!(fields_of(&scheme), values());
}

#[test]
fn from_yaml_refuses_each_missing_field() {
    for missing in 0..18 {
        let mut pairs = full_pairs();
        pairs.remove(missing);
        let made = SchemeInput::from_yaml(&yaml_of(&pairs));
        assert_eq!(malformed_detail(made), NAMES[missing]);
    }
}

#[test]
fn from_yaml_wants_the_capital_letters() {
    let mut pairs = full_pairs();
    pairs[12].0 = "base0a".to_string();
    assert_eq!(malformed_detail(SchemeInput::from_yaml(&yaml_of(&pairs))), "base0A");
    let mut pairs = full_pairs();
    pairs[17].0 = "base0f".to_string();
    assert_eq!(malformed_detail(SchemeInput::from_yaml(&yaml_of(&pairs))), "base0F");
    let mut pairs = full_pairs();
    pairs[0].0 = "Scheme".to_string();
    assert_eq!(malformed_detail(SchemeInput::from_yaml(&yaml_of(&pairs))), "scheme");
}

#[test]
fn from_yaml_refuses_a_field_that_is_not_text() {
    let mut pairs = full_pairs();
    pairs.remove(2);
    let mut bytes = yaml_of(&pairs);
    bytes.extend_from_slice(b"base00: 123456\n");
    assert_eq!(malformed_detail(SchemeInput::from_yaml(&bytes)), "base00");

    let mut pairs = full_pairs();
    pairs.remove(1);
    let mut bytes = yaml_of(&pairs);
    bytes.extend_from_slice(b"author: [a, b]\n");
    assert_eq!(malformed_detail(SchemeInput::from_yaml(&bytes)), "author");

    let mut pairs = full_pairs();
    pairs.remove(3);
    let mut bytes = yaml_of(&pairs);
    bytes.extend_from_slice(b"base01: true\n");
    assert_eq!(malformed_detail(SchemeInput::from_yaml(&bytes)), "base01");
}

#[test]
fn from_yaml_refuses_what_is_no_record() {
    assert_eq!(malformed_detail(SchemeInput::from_yaml(b"")), "scheme");
    assert_eq!(malformed_detail(SchemeInput::from_yaml(b"just text")), "scheme");
    assert_eq!(malformed_detail(SchemeInput::from_yaml(b"- a\n- b\n")), "scheme");
}

#[test]
fn from_yaml_carries_the_diagnostic_of_the_reader() {
    let bytes = b"scheme: [unclosed";
    let expected = serde_yaml::from_slice::<serde_yaml::Value>(bytes).unwrap_err().to_string();
    assert!(!expected.is_empty());
    assert_eq!(malformed_detail(SchemeInput::from_yaml(bytes)), expected);
}

#[test]
fn from_yaml_refuses_bytes_that_are_not_yaml() {
    let made = SchemeInput::from_yaml(b"scheme: \"unclosed\nauthor: [");
    assert!(matches!(made, Err(Failure::MalformedInput(_))));
    let made = SchemeInput::from_yaml(&[0xff, 0xfe, 0x00]);
    assert!(matches!(made, Err(Failure::MalformedInput(_))));
}

#[test]
fn colours_are_not_checked() {
    let mut pairs = full_pairs();
    pairs[2].1 = "not a colour".to_string();
    let scheme = SchemeInput::from_yaml(&yaml_of(&pairs)).unwrap();
    assert_eq!(scheme.base00, "not a colour");
}

#[test]
fn projection_renames_and_keeps_every_value() {
    let found: Vec<Option<String>> = values().into_iter().map(Some).collect();
    let scheme = SchemeInput::from_fields(&found).unwrap();
    let out = SchemeOutput::from(&scheme);
    assert_eq!(out.scheme_name, "Test");
    assert_eq!(out.scheme_author, "A");
    assert_eq!(out.base00_hex, scheme.base00);
    assert_eq!(out.base09_hex, scheme.base09);
    assert_eq!(out.base0a_hex, scheme.base0a);
    assert_eq!(out.base0f_hex, scheme.base0f);
    let entries = out.entries();
    assert_eq!(entries.len(), 18);
    for (index, (name, value)) in entries.iter().enumerate() {
        assert_eq!(name, CONTEXT_NAMES[index]);
        assert_eq!(value, &values()[index]);
    }
}

#[test]
fn context_names_are_distinct() {
    for first in 0..18 {
        for second in 0..18 {
            if first != second {
                assert_ne!(context_name(first), context_name(second));
                assert_ne!(field_name(first), field_name(second));
            }
        }
    }
}

#[test]
fn failures_have_a_kind_and_a_message() {
    let all = vec![
        (Failure::MalformedInput("d".to_string()), Kind::MalformedInput, "malformed scheme: d"),
        (
            Failure::InvalidSearchPattern("d".to_string()),
            Kind::InvalidSearchPattern,
            "invalid search pattern: d",
        ),
        (
            Failure::UnreadableTemplate("d".to_string()),
            Kind::UnreadableTemplate,
            "unreadable template: d",
        ),
        (Failure::TemplateSyntax("d".to_string()), Kind::TemplateSyntax, "template syntax error: d"),
        (Failure::Render("d".to_string()), Kind::Render, "render error: d"),
        (Failure::Write("".to_string()), Kind::Write, "write error: "),
    ];
    for (failure, kind, message) in all {
        assert_eq!(failure.kind(), kind);
        assert_eq!(failure.message(), message);
        assert_eq!(failure.duplicate().message(), message);
    }
}
