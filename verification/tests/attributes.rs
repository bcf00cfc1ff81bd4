use prost_canonical_serde::attrs::{
    parse_canonical_attrs, parse_container_attrs, AttrPlace, parse_enum_path_from_map, parse_prost_attrs,
    ContainerDefault, DeserializeVia, SerializeVia,
};
use prost_canonical_serde::error::{DeriveErrorKind, Expected};
use prost_canonical_serde::meta::{AttrArgs, Attribute, MetaArg, MetaItem};
use prost_canonical_serde::naming::RenameRule;
use prost_canonical_serde::syntax::check_attribute_syntax;

fn path(p: &str) -> Vec<String> {
    p.split("::").map(|s| s.to_string()).collect()
}

fn item(p: &str, arg: MetaArg) -> MetaItem {
    MetaItem::Meta { path: path(p), arg, verdict: None }
}

fn checked(attrs: Vec<Attribute>) -> Vec<Attribute> {
    check_attribute_syntax(attrs)
}

fn s(text: &str) -> MetaArg {
    MetaArg::Str(text.to_string())
}

fn attr(name: &str, items: Vec<MetaItem>) -> Attribute {
    Attribute { path: path(name), args: AttrArgs::List(items) }
}

#[test]
fn canonical_attrs_read_names_and_flags() {
    let attrs = vec![
        attr("doc", vec![]),
        attr("prost_canonical_serde", vec![item("proto_name", s("display_name")), item("json_name", s("displayName"))]),
        attr("prost_canonical_serde", vec![item("flatten", MetaArg::Bare)]),
    ];
    let a = parse_canonical_attrs(AttrPlace::Field, &attrs).ok().expect("attributes read");
    assert_eq!(a.proto_name.as_deref(), Some("display_name"));
    assert_eq!(a.json_name.as_deref(), Some("displayName"));
    assert!(a.flatten);
    assert!(!a.transparent);
}

#[test]
fn canonical_attrs_pass_over_unknown_bare_items() {
    let attrs = vec![attr("prost_canonical_serde", vec![item("unknown", MetaArg::Bare), item("transparent", MetaArg::Bare)])];
    let a = parse_canonical_attrs(AttrPlace::Field, &attrs).ok().expect("unknown bare items are passed over");
    assert!(a.transparent);
}

#[test]
fn canonical_attrs_refuse_unknown_items_with_values() {
    let attrs = vec![attr("prost_canonical_serde", vec![item("unknown", s("wireCount"))])];
    let e = parse_canonical_attrs(AttrPlace::Field, &attrs).err().expect("value left over");
    assert_eq!(e.kind, DeriveErrorKind::Missing { what: Expected::Comma, at_end: false });
    assert_eq!(e.message(), "expected `,`");
}

#[test]
fn canonical_attrs_need_string_values() {
    let last = vec![attr("prost_canonical_serde", vec![item("proto_name", MetaArg::Bare)])];
    let e = parse_canonical_attrs(AttrPlace::Field, &last).err().unwrap();
    assert_eq!(e.message(), "unexpected end of input, expected `=`");
    let not_last = vec![attr("prost_canonical_serde", vec![item("proto_name", MetaArg::Bare), item("flatten", MetaArg::Bare)])];
    assert_eq!(parse_canonical_attrs(AttrPlace::Field, &not_last).err().unwrap().message(), "expected `=`");
    let number = vec![attr("prost_canonical_serde", vec![item("json_name", MetaArg::OtherLit)])];
    assert_eq!(parse_canonical_attrs(AttrPlace::Field, &number).err().unwrap().message(), "expected string literal");
    let empty = vec![attr("prost_canonical_serde", vec![item("json_name", MetaArg::Empty)])];
    assert_eq!(parse_canonical_attrs(AttrPlace::Field, &empty).err().unwrap().message(), "unexpected end of input, expected string literal");
}

#[test]
fn canonical_attrs_report_malformed_input() {
    let attrs = vec![Attribute { path: path("prost_canonical_serde"), args: AttrArgs::NotList("expected attribute arguments in parentheses".to_string()) }];
    let e = parse_canonical_attrs(AttrPlace::Field, &attrs).err().unwrap();
    assert_eq!(e.kind, DeriveErrorKind::Parse);
    assert_eq!(e.message(), "expected attribute arguments in parentheses");
    let attrs = vec![attr("prost_canonical_serde", vec![MetaItem::Malformed("unexpected token in nested attribute, expected ident".to_string())])];
    assert_eq!(parse_canonical_attrs(AttrPlace::Field, &attrs).err().unwrap().message(), "unexpected token in nested attribute, expected ident");
}

#[test]
fn container_defaults_to_the_type_name_and_serde() {
    let c = parse_container_attrs("Demo", &vec![]).ok().unwrap();
    assert_eq!(c.serialize_name, "Demo");
    assert_eq!(c.deserialize_name, "Demo");
    assert_eq!(c.serde_path, "::serde");
    assert!(matches!(c.serialize_via, SerializeVia::Direct));
    assert!(matches!(c.deserialize_via, DeserializeVia::Direct));
    assert!(matches!(c.default, ContainerDefault::Unset));
    assert!(c.tag.is_none());
    assert!(!c.deny_unknown_fields);
    assert!(!c.transparent);
}

#[test]
fn container_rename_sets_both_names() {
    let c = parse_container_attrs("RenamedMessage", &vec![attr("serde", vec![item("rename", s("wire_message"))])]).ok().unwrap();
    assert_eq!(c.serialize_name, "wire_message");
    assert_eq!(c.deserialize_name, "wire_message");
}

#[test]
fn container_rename_supports_independent_names() {
    let nested = MetaArg::List(vec![item("serialize", s("wire_box_ser")), item("deserialize", s("wire_box_de"))]);
    let c = parse_container_attrs("RenamedBox", &vec![attr("serde", vec![item("rename", nested)])]).ok().unwrap();
    assert_eq!(c.serialize_name, "wire_box_ser");
    assert_eq!(c.deserialize_name, "wire_box_de");
    let e = parse_container_attrs("RenamedBox", &vec![attr("serde", vec![item("rename", MetaArg::Bare)])]).err().unwrap();
    assert_eq!(e.message(), "unexpected end of input, expected parentheses");
}

#[test]
fn container_rename_all_reads_rules() {
    let c = parse_container_attrs("M", &vec![attr("serde", vec![item("rename_all", s("snake_case"))])]).ok().unwrap();
    assert_eq!(c.serialize_rename_all, Some(RenameRule::SnakeCase));
    assert_eq!(c.deserialize_rename_all, Some(RenameRule::SnakeCase));
    let nested = MetaArg::List(vec![item("deserialize", s("kebab-case"))]);
    let c = parse_container_attrs("M", &vec![attr("serde", vec![item("rename_all", nested)])]).ok().unwrap();
    assert_eq!(c.serialize_rename_all, None);
    assert_eq!(c.deserialize_rename_all, Some(RenameRule::KebabCase));
    let e = parse_container_attrs("M", &vec![attr("serde", vec![item("rename_all", s("title_case"))])]).err().unwrap();
    assert_eq!(e.kind, DeriveErrorKind::UnsupportedRenameAll);
}

#[test]
fn container_reads_tag_crate_and_deny_unknown_fields() {
    let attrs = vec![attr("serde", vec![
        item("tag", s("type")),
        item("crate", s("renamed_serde")),
        item("deny_unknown_fields", MetaArg::Bare),
    ])];
    let c = parse_container_attrs("M", &attrs).ok().unwrap();
    assert_eq!(c.tag.as_deref(), Some("type"));
    assert_eq!(c.serde_path, "renamed_serde");
    assert!(c.deny_unknown_fields);
}

#[test]
fn container_crate_must_be_a_path() {
    let attrs = checked(vec![attr("serde", vec![item("crate", s("not a path"))])]);
    let e = parse_container_attrs("M", &attrs).err().unwrap();
    assert_eq!(e.kind, DeriveErrorKind::Parse);
    assert!(!e.message().is_empty());
}

#[test]
fn container_reads_conversions_and_defaults() {
    let c = parse_container_attrs("M", &vec![attr("serde", vec![item("into", s("IntoWireMessage")), item("default", MetaArg::Bare)])]).ok().unwrap();
    assert!(matches!(&c.serialize_via, SerializeVia::Into(t) if t == "IntoWireMessage"));
    assert!(matches!(c.default, ContainerDefault::Default));
    let c = parse_container_attrs("M", &vec![attr("serde", vec![item("try_from", s("Wire")), item("default", s("custom_default_message"))])]).ok().unwrap();
    assert!(matches!(&c.deserialize_via, DeserializeVia::TryFrom(t) if t == "Wire"));
    assert!(matches!(&c.default, ContainerDefault::Path(p) if p == "custom_default_message"));
    let c = parse_container_attrs("M", &vec![attr("serde", vec![item("from", s("Vec<u8>"))])]).ok().unwrap();
    assert!(matches!(&c.deserialize_via, DeserializeVia::From(t) if t == "Vec<u8>"));
}

#[test]
fn container_conversion_must_be_a_type() {
    let e = parse_container_attrs("M", &checked(vec![attr("serde", vec![item("into", s("Vec<"))])])).err().unwrap();
    assert_eq!(e.kind, DeriveErrorKind::Parse);
    assert!(!e.message().is_empty());
    let e = parse_container_attrs("M", &checked(vec![attr("serde", vec![item("try_from", s("1 + 2"))])])).err().unwrap();
    assert_eq!(e.kind, DeriveErrorKind::Parse);
    let e = parse_container_attrs("M", &checked(vec![attr("serde", vec![item("default", s("a b"))])])).err().unwrap();
    let c = parse_container_attrs("M", &checked(vec![attr("serde", vec![item("into", s("Vec<u8>")), item("crate", s("::serde"))])])).ok().unwrap();
    assert!(matches!(&c.serialize_via, SerializeVia::Into(t) if t == "Vec<u8>"));
    assert_eq!(e.kind, DeriveErrorKind::Parse);
}

#[test]
fn container_refuses_a_second_conversion() {
    let e = parse_container_attrs("M", &vec![attr("serde", vec![item("into", s("A")), item("into", s("B"))])]).err().unwrap();
    assert_eq!(e.kind, DeriveErrorKind::DuplicateInto);
    assert_eq!(e.message(), "only one serde into attribute may be specified");
    let e = parse_container_attrs("M", &vec![attr("serde", vec![item("from", s("A")), item("try_from", s("B"))])]).err().unwrap();
    assert_eq!(e.kind, DeriveErrorKind::DuplicateFrom);
    assert_eq!(e.message(), "only one of serde from and try_from may be specified");
}

#[test]
fn container_refuses_unsupported_attributes() {
    let e = parse_container_attrs("M", &vec![attr("serde", vec![item("untagged", MetaArg::Bare)])]).err().unwrap();
    assert_eq!(e.kind, DeriveErrorKind::UnsupportedContainerAttribute);
    assert_eq!(e.message(), "unsupported serde container attribute `untagged`");
    let e = parse_container_attrs("M", &vec![attr("serde", vec![item("a::content", s("c"))])]).err().unwrap();
    assert_eq!(e.message(), "unsupported serde container attribute `content`");
}

#[test]
fn container_reads_transparent_from_canonical_attrs() {
    let c = parse_container_attrs("Count", &vec![attr("prost_canonical_serde", vec![item("transparent", MetaArg::Bare)])]).ok().unwrap();
    assert!(c.transparent);
}

#[test]
fn prost_attrs_read_oneof_and_enumeration() {
    let a = parse_prost_attrs(&vec![attr("prost", vec![item("oneof", s("Choice")), item("tags", s("1, 2"))])]).ok().unwrap();
    assert!(a.is_oneof);
    assert!(a.enum_path.is_none());
    let a = parse_prost_attrs(&vec![attr("prost", vec![item("enumeration", s("Status")), item("tag", s("3"))])]).ok().unwrap();
    assert!(!a.is_oneof);
    assert_eq!(a.enum_path.as_deref(), Some("Status"));
    let a = parse_prost_attrs(&vec![attr("prost", vec![item("int32", MetaArg::Bare), item("tag", s("1"))])]).ok().unwrap();
    assert!(!a.is_oneof && a.enum_path.is_none());
    let a = parse_prost_attrs(&vec![attr("prost", vec![item("map", s("string, enumeration(Status)"))])]).ok().unwrap();
    assert_eq!(a.enum_path.as_deref(), Some("Status"));
}

#[test]
fn prost_attrs_need_literals() {
    let e = parse_prost_attrs(&vec![attr("prost", vec![item("tag", MetaArg::OtherValue)])]).err().unwrap();
    assert_eq!(e.message(), "expected literal");
    let e = parse_prost_attrs(&vec![attr("prost", vec![item("enumeration", MetaArg::Bare)])]).err().unwrap();
    assert_eq!(e.message(), "unexpected end of input, expected `=`");
}

#[test]
fn map_enum_path_is_read_from_the_map_type() {
    assert_eq!(parse_enum_path_from_map("int32, enumeration(Status)", &None).ok().unwrap().as_deref(), Some("Status"));
    assert_eq!(parse_enum_path_from_map("string, enumeration( a::Status )", &None).ok().unwrap().as_deref(), Some("a::Status"));
    assert_eq!(parse_enum_path_from_map("string, int32", &None).ok().unwrap(), None);
    assert_eq!(parse_enum_path_from_map("string, enumeration( )", &None).ok().unwrap(), None);
    let e = parse_enum_path_from_map("string, enumeration(Status", &None).err().unwrap();
    assert_eq!(e.kind, DeriveErrorKind::InvalidMapEnum);
    assert_eq!(e.message(), "invalid map enum");
    let e = parse_enum_path_from_map("string, enumeration(a b)", &Some("unexpected token".to_string())).err().unwrap();
    assert_eq!(e.kind, DeriveErrorKind::Parse);
    assert_eq!(e.message(), "unexpected token");
    // The parser's verdict on the inner path, recorded by the syntax check.
    let attrs = checked(vec![attr("prost", vec![item("map", s("string, enumeration(a b)"))])]);
    assert_eq!(parse_prost_attrs(&attrs).err().unwrap().kind, DeriveErrorKind::Parse);
    let attrs = checked(vec![attr("prost", vec![item("map", s("string, enumeration(a::Status)"))])]);
    assert_eq!(parse_prost_attrs(&attrs).ok().unwrap().enum_path.as_deref(), Some("a::Status"));
}

#[test]
fn canonical_attrs_read_field_renames_aliases_defaults_and_skips() {
    let attrs = vec![
        attr("prost_canonical_serde", vec![item("rename", MetaArg::List(vec![item("serialize", s("wireName")), item("deserialize", s("wire_name"))]))]),
        attr("prost_canonical_serde", vec![item("alias", s("wire-name"))]),
        attr("prost_canonical_serde", vec![item("alias", s("wireName2")), item("default", s("default_count")), item("skip_serializing", MetaArg::Bare)]),
    ];
    let a = parse_canonical_attrs(AttrPlace::Field, &attrs).ok().unwrap();
    assert_eq!(a.rename_serialize.as_deref(), Some("wireName"));
    assert_eq!(a.rename_deserialize.as_deref(), Some("wire_name"));
    assert_eq!(a.aliases, vec!["wire-name".to_string(), "wireName2".to_string()]);
    assert!(matches!(&a.default, ContainerDefault::Path(p) if p == "default_count"));
    assert!(a.skip_serializing && !a.skip_deserializing);
    let a = parse_canonical_attrs(AttrPlace::Field, &vec![attr("prost_canonical_serde", vec![item("rename", s("wireCount")), item("skip", MetaArg::Bare), item("default", MetaArg::Bare)])]).ok().unwrap();
    assert_eq!(a.rename_serialize.as_deref(), Some("wireCount"));
    assert_eq!(a.rename_deserialize.as_deref(), Some("wireCount"));
    assert!(a.skip_serializing && a.skip_deserializing);
    assert!(matches!(a.default, ContainerDefault::Default));
    let e = parse_canonical_attrs(AttrPlace::Field, &vec![attr("prost_canonical_serde", vec![item("alias", MetaArg::Bare)])]).err().unwrap();
    assert_eq!(e.message(), "unexpected end of input, expected `=`");
}

#[test]
fn container_reads_prost_canonical_serde_settings() {
    let attrs = vec![attr("prost_canonical_serde", vec![
        item("rename_all", s("SCREAMING_SNAKE_CASE")),
        item("default", s("container_default_message")),
        item("deny_unknown_fields", MetaArg::Bare),
    ])];
    let c = parse_container_attrs("M", &attrs).ok().unwrap();
    assert_eq!(c.serialize_rename_all, Some(RenameRule::ScreamingSnakeCase));
    assert_eq!(c.deserialize_rename_all, Some(RenameRule::ScreamingSnakeCase));
    assert!(matches!(&c.default, ContainerDefault::Path(p) if p == "container_default_message"));
    assert!(c.deny_unknown_fields);
    let split = vec![attr("prost_canonical_serde", vec![item("rename_all", MetaArg::List(vec![item("serialize", s("camelCase")), item("deserialize", s("snake_case"))]))])];
    let c = parse_container_attrs("M", &split).ok().unwrap();
    assert_eq!(c.serialize_rename_all, Some(RenameRule::CamelCase));
    assert_eq!(c.deserialize_rename_all, Some(RenameRule::SnakeCase));
    let e = parse_container_attrs("M", &vec![attr("prost_canonical_serde", vec![item("rename_all", s("title_case"))])]).err().unwrap();
    assert_eq!(e.kind, DeriveErrorKind::UnsupportedRenameAll);
}

#[test]
fn container_reads_expecting() {
    let c = parse_container_attrs("M", &vec![attr("serde", vec![item("expecting", s("a message object"))])]).ok().unwrap();
    assert_eq!(c.expecting.as_deref(), Some("a message object"));
    let c = parse_container_attrs("M", &vec![]).ok().unwrap();
    assert_eq!(c.expecting, None);
}

#[test]
fn syntax_check_records_verdicts_only_where_a_path_or_type_is_asked() {
    let attrs = checked(vec![
        attr("serde", vec![item("crate", s("not a path")), item("tag", s("not a path")), item("into", s("Vec<u8>"))]),
        attr("prost_canonical_serde", vec![item("default", s("a b")), item("json_name", s("a b"))]),
    ]);
    let verdict = |k: usize, j: usize| match &attrs[k].args {
        AttrArgs::List(items) => match &items[j] {
            MetaItem::Meta { verdict, .. } => verdict.as_ref().map(|v| v.message()),
            MetaItem::Malformed(_) => None,
        },
        AttrArgs::NotList(_) => None,
    };
    // `crate` was asked and did not parse; `tag` is not asked; `into` was
    // asked and parsed.
    assert!(matches!(verdict(0, 0), Some(Some(_))));
    assert_eq!(verdict(0, 1), None);
    assert_eq!(verdict(0, 2), Some(None));
    assert!(matches!(verdict(1, 0), Some(Some(_))));
    assert_eq!(verdict(1, 1), None);
    let e = parse_canonical_attrs(AttrPlace::Field, &attrs).err().unwrap();
    assert_eq!(e.kind, DeriveErrorKind::Parse);
}

#[test]
fn canonical_keys_outside_their_place_are_unknown_keys() {
    // A container key on a field, a field key on a container or a variant:
    // with a value it is refused, bare it is passed over.
    let on_field = vec![attr("prost_canonical_serde", vec![item("rename_all", s("camelCase"))])];
    assert_eq!(parse_canonical_attrs(AttrPlace::Field, &on_field).err().unwrap().message(), "expected `,`");
    assert!(parse_canonical_attrs(AttrPlace::Container, &on_field).is_ok());
    let alias = vec![attr("prost_canonical_serde", vec![item("alias", s("x"))])];
    assert_eq!(parse_container_attrs("M", &alias).err().unwrap().message(), "expected `,`");
    assert!(parse_canonical_attrs(AttrPlace::Variant, &alias).is_ok());
    let default = vec![attr("prost_canonical_serde", vec![item("default", s("f"))])];
    assert_eq!(parse_canonical_attrs(AttrPlace::Variant, &default).err().unwrap().message(), "expected `,`");
    let skip = vec![attr("prost_canonical_serde", vec![item("skip", MetaArg::Bare)])];
    let c = parse_canonical_attrs(AttrPlace::Container, &skip).ok().unwrap();
    assert!(!c.skip_serializing && !c.skip_deserializing);
}
