use prost_canonical_serde::error::{DeriveErrorKind, Expected};
use prost_canonical_serde::field::{name_for_field, name_for_variant};
use prost_canonical_serde::attrs::CanonicalAttrs;
use prost_canonical_serde::naming::{capitalize, join_words, split_words, upper_string, RenameRule};

fn words(name: &str) -> Vec<String> {
    split_words(name)
}

#[test]
fn split_words_breaks_at_separators_case_and_digits() {
    assert_eq!(words("display_name"), vec!["display", "name"]);
    assert_eq!(words("displayName"), vec!["display", "name"]);
    assert_eq!(words("HTTPServer"), vec!["http", "server"]);
    assert_eq!(words("wire-count"), vec!["wire", "count"]);
    assert_eq!(words("value2Go"), vec!["value", "2", "go"]);
    assert_eq!(words("__a__b__"), vec!["a", "b"]);
    assert_eq!(words(""), Vec::<String>::new());
    assert_eq!(words("ABC"), vec!["abc"]);
    assert_eq!(words("int64_field"), vec!["int", "64", "field"]);
}

#[test]
fn capitalize_uppercases_only_the_first_char() {
    assert_eq!(capitalize("demo"), "Demo");
    assert_eq!(capitalize("dEMO"), "DEMO");
    assert_eq!(capitalize(""), "");
    assert_eq!(capitalize("1a"), "1a");
}

#[test]
fn join_and_upper_helpers() {
    let ws = vec!["a".to_string(), "bc".to_string(), "d".to_string()];
    assert_eq!(join_words(&ws, "_"), "a_bc_d");
    assert_eq!(join_words(&ws, ""), "abcd");
    assert_eq!(join_words(&Vec::new(), "-"), "");
    assert_eq!(upper_string("wire_ready-1"), "WIRE_READY-1");
}

#[test]
fn rename_rule_parse_accepts_the_eight_conventions() {
    let cases = [
        ("lowercase", RenameRule::LowerCase),
        ("UPPERCASE", RenameRule::UpperCase),
        ("PascalCase", RenameRule::PascalCase),
        ("camelCase", RenameRule::CamelCase),
        ("snake_case", RenameRule::SnakeCase),
        ("SCREAMING_SNAKE_CASE", RenameRule::ScreamingSnakeCase),
        ("kebab-case", RenameRule::KebabCase),
        ("SCREAMING-KEBAB-CASE", RenameRule::ScreamingKebabCase),
    ];
    for (text, rule) in cases {
        assert_eq!(RenameRule::parse(text).ok(), Some(rule));
    }
}

#[test]
fn rename_rule_parse_refuses_title_case() {
    let err = RenameRule::parse("title_case").err().expect("title_case is not a convention");
    assert_eq!(err.kind, DeriveErrorKind::UnsupportedRenameAll);
    assert_eq!(err.message(), "unsupported rename_all case convention");
}

#[test]
fn rename_rule_apply_examples() {
    let name = "display_name";
    assert_eq!(RenameRule::LowerCase.apply(name), "displayname");
    assert_eq!(RenameRule::UpperCase.apply(name), "DISPLAYNAME");
    assert_eq!(RenameRule::PascalCase.apply(name), "DisplayName");
    assert_eq!(RenameRule::CamelCase.apply(name), "displayName");
    assert_eq!(RenameRule::SnakeCase.apply(name), "display_name");
    assert_eq!(RenameRule::ScreamingSnakeCase.apply(name), "DISPLAY_NAME");
    assert_eq!(RenameRule::KebabCase.apply(name), "display-name");
    assert_eq!(RenameRule::ScreamingKebabCase.apply(name), "DISPLAY-NAME");
    assert_eq!(RenameRule::SnakeCase.apply_to_variant("ReadyState"), "ready_state");
    assert_eq!(RenameRule::CamelCase.apply_to_field("int64_field"), "int64Field");
    assert_eq!(RenameRule::CamelCase.apply(""), "");
}

#[test]
fn rename_all_of_a_renamed_name_is_stable_for_snake_case() {
    let once = RenameRule::SnakeCase.apply("HTTPServerName");
    assert_eq!(once, "http_server_name");
    assert_eq!(RenameRule::SnakeCase.apply(&once), once);
}

fn attrs(proto: Option<&str>, json: Option<&str>) -> CanonicalAttrs {
    let mut a = CanonicalAttrs::new();
    a.proto_name = proto.map(|s| s.to_string());
    a.json_name = json.map(|s| s.to_string());
    a
}

#[test]
fn field_names_follow_json_name_then_proto_name_then_rule() {
    // json_name wins
    assert_eq!(name_for_field("count", &attrs(Some("count"), Some("wireCount")), None, "count"), "wireCount");
    // proto_name set: camelCase of it, rule ignored
    assert_eq!(
        name_for_field("display_name", &attrs(Some("display_name"), None), Some(RenameRule::ScreamingSnakeCase), "display_name"),
        "displayName"
    );
    // rule applies to the identifier
    assert_eq!(
        name_for_field("display_name", &attrs(None, None), Some(RenameRule::ScreamingSnakeCase), "display_name"),
        "DISPLAY_NAME"
    );
    // default: camelCase of the proto name
    assert_eq!(name_for_field("int64_field", &attrs(None, None), None, "int64_field"), "int64Field");
    assert_eq!(name_for_variant("Value", &attrs(None, None), None, "value"), "value");
    assert_eq!(name_for_variant("Value", &attrs(None, None), Some(RenameRule::SnakeCase), "value"), "value");
}

#[test]
fn missing_token_messages_mention_the_end_of_input() {
    let e = prost_canonical_serde::meta::missing_error(Expected::Equals, true);
    assert_eq!(e.message(), "unexpected end of input, expected `=`");
    let e = prost_canonical_serde::meta::missing_error(Expected::Comma, false);
    assert_eq!(e.message(), "expected `,`");
}
