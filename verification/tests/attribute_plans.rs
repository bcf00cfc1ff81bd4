use prost_canonical_serde::attrs::{ContainerDefault, DeserializeVia, SerializeVia};
use prost_canonical_serde::dispatch::{KeyRoute, UnknownKey, WriteStep};
use prost_canonical_serde::input::{DataInput, DeriveInput, FieldInput, FieldsInput, VariantInput};
use prost_canonical_serde::meta::{AttrArgs, Attribute, MetaArg, MetaItem};
use prost_canonical_serde::naming::split_words;
use prost_canonical_serde::variants::{plan_enum_variants, plan_oneof_variants, EnumWrite};
use prost_canonical_serde::plan::{
    expand_deserialize, expand_serialize, DeserializePlan, DeserializeStruct, EnumDeserializeMode,
    EnumSerializeMode, FieldRole, MatchArm, SerializeEnum, SerializePlan, SerializeStruct,
    DeserializeMode, SerializeMode,
};
use prost_canonical_serde::shape::{CountRule, DefaultCheck, DefaultValue, InitPlan, TransparentReadPlan, TransparentSerializePlan, ValueWrap};
use prost_canonical_serde::types::{GenericArg, PathArgs, PathSegment, TypeRepr, TypeShape};

fn path(p: &str) -> Vec<String> {
    p.split("::").map(|s| s.to_string()).collect()
}

fn item(p: &str, arg: MetaArg) -> MetaItem {
    MetaItem::Meta { path: path(p), arg, verdict: None }
}

fn s(text: &str) -> MetaArg {
    MetaArg::Str(text.to_string())
}

fn bare(p: &str) -> MetaItem {
    item(p, MetaArg::Bare)
}

fn pair(ser: &str, de: &str) -> MetaArg {
    MetaArg::List(vec![item("serialize", s(ser)), item("deserialize", s(de))])
}

fn attr(name: &str, items: Vec<MetaItem>) -> Attribute {
    Attribute { path: path(name), args: AttrArgs::List(items) }
}

fn pcs(items: Vec<MetaItem>) -> Attribute {
    attr("prost_canonical_serde", items)
}

fn prost(items: Vec<MetaItem>) -> Attribute {
    attr("prost", items)
}

fn ty(p: &str) -> TypeRepr {
    TypeRepr { id: 0, shape: TypeShape::Path(path(p).into_iter().map(|i| PathSegment { ident: i, args: PathArgs::Plain }).collect()) }
}

fn option(inner: TypeRepr) -> TypeRepr {
    TypeRepr { id: 0, shape: TypeShape::Path(vec![PathSegment { ident: "Option".to_string(), args: PathArgs::Angle(vec![GenericArg::Type(inner)]) }]) }
}

fn field(name: &str, t: TypeRepr, attrs: Vec<Attribute>) -> FieldInput {
    FieldInput { ident: Some(name.to_string()), ty: t, attrs }
}

fn names(proto: &str, json: &str) -> Attribute {
    pcs(vec![item("proto_name", s(proto)), item("json_name", s(json))])
}

fn message(ident: &str, attrs: Vec<Attribute>, fields: Vec<FieldInput>) -> DeriveInput {
    DeriveInput { ident: ident.to_string(), attrs, data: DataInput::Struct(FieldsInput::Named(fields)) }
}

fn oneof(ident: &str, attrs: Vec<Attribute>, variants: Vec<(&str, Vec<Attribute>)>) -> DeriveInput {
    let variants = variants
        .into_iter()
        .enumerate()
        .map(|(k, (name, mut attrs))| {
            attrs.insert(0, prost(vec![bare("string"), item("tag", s(&(k + 1).to_string()))]));
            VariantInput {
                ident: name.to_string(),
                attrs,
                fields: FieldsInput::Unnamed(vec![FieldInput { ident: None, ty: ty("String"), attrs: vec![] }]),
            }
        })
        .collect();
    DeriveInput { ident: ident.to_string(), attrs, data: DataInput::Enum(variants) }
}

fn enumeration(ident: &str, variants: Vec<(&str, Vec<Attribute>)>) -> DeriveInput {
    let variants = variants
        .into_iter()
        .map(|(name, attrs)| VariantInput { ident: name.to_string(), attrs, fields: FieldsInput::Unit })
        .collect();
    DeriveInput { ident: ident.to_string(), attrs: vec![], data: DataInput::Enum(variants) }
}

fn ser(input: &DeriveInput) -> SerializeStruct<'_> {
    match expand_serialize(input).ok().expect("accepted") {
        SerializePlan::Struct(p) => p,
        SerializePlan::Enum(_) => panic!("a struct"),
    }
}

fn de(input: &DeriveInput) -> DeserializeStruct<'_> {
    match expand_deserialize(input).ok().expect("accepted") {
        DeserializePlan::Struct(p) => p,
        DeserializePlan::Enum(_, _) => panic!("a struct"),
    }
}

fn ser_enum(input: &DeriveInput) -> SerializeEnum<'_> {
    match expand_serialize(input).ok().expect("accepted") {
        SerializePlan::Enum(p) => p,
        SerializePlan::Struct(_) => panic!("an enum"),
    }
}

fn count_i64(attrs: Vec<Attribute>) -> FieldInput {
    let mut all = vec![prost(vec![bare("int64"), item("tag", s("1"))])];
    all.extend(attrs);
    field("count", ty("i64"), all)
}

fn note() -> FieldInput {
    field("note", ty("String"), vec![prost(vec![bare("string"), item("tag", s("2"))])])
}

fn collision_inner() -> FieldInput {
    field("inner", option(ty("CollisionInner")), vec![prost(vec![bare("message"), bare("optional"), item("tag", s("2"))]), pcs(vec![bare("flatten")])])
}

#[test]
fn field_rename_applies_to_serialize_and_deserialize_names() {
    let input = message("RenamedFieldMessage", vec![], vec![count_i64(vec![pcs(vec![item("rename", s("wireCount"))])])]);
    let p = ser(&input);
    assert_eq!(p.fields[0].serialize_name, "wireCount");
    assert_eq!(p.fields[0].deserialize_name, "wireCount");
    assert_eq!(p.fields[0].proto_name, "count");
    let d = de(&input);
    assert!(d.entries[0].with_proto);
    assert!(matches!(d.entries[0].role, FieldRole::Read(_)));
}

#[test]
fn field_rename_supports_independent_serialize_and_deserialize_names() {
    let input = message(
        "SplitRenamedFieldMessage",
        vec![pcs(vec![item("rename_all", s("SCREAMING_SNAKE_CASE"))])],
        vec![field("display_name", ty("String"), vec![pcs(vec![item("rename", pair("wireName", "wire_name"))])])],
    );
    let p = ser(&input);
    assert_eq!(p.fields[0].serialize_name, "wireName");
    assert_eq!(p.fields[0].deserialize_name, "wire_name");
    assert_eq!(p.fields[0].proto_name, "display_name");
    assert!(de(&input).entries[0].with_proto);
}

#[test]
fn field_alias_allows_multiple_deserialize_names() {
    let input = message("AliasedFieldMessage", vec![], vec![count_i64(vec![pcs(vec![item("alias", s("wire_count"))]), pcs(vec![item("alias", s("wire-count"))])])]);
    let p = ser(&input);
    assert_eq!(p.fields[0].serialize_name, "count");
    assert_eq!(p.fields[0].aliases, vec!["wire_count".to_string(), "wire-count".to_string()]);
    assert_eq!(p.entries[0].arm, MatchArm::Names { with_proto: false });
}

#[test]
fn field_alias_works_with_explicit_rename() {
    let input = message("RenamedAliasedFieldMessage", vec![], vec![field("name", ty("String"), vec![
        pcs(vec![item("rename", s("wireName"))]),
        pcs(vec![item("alias", s("wire_name"))]),
        pcs(vec![item("alias", s("wire-name"))]),
    ])]);
    let p = ser(&input);
    assert_eq!(p.fields[0].serialize_name, "wireName");
    assert_eq!(p.fields[0].deserialize_name, "wireName");
    assert_eq!(p.fields[0].aliases, vec!["wire_name".to_string(), "wire-name".to_string()]);
    assert_eq!(p.entries[0].arm, MatchArm::Names { with_proto: true });
}

fn field_path_default_message() -> DeriveInput {
    message("FieldPathDefaultMessage", vec![], vec![count_i64(vec![pcs(vec![item("default", s("default_count"))])]), note()])
}

#[test]
fn field_default_path_fills_missing_field() {
    let input = field_path_default_message();
    let d = de(&input);
    assert_eq!(d.entries[0].init, InitPlan::FieldPath);
    assert!(matches!(&d.fields[0].default, ContainerDefault::Path(p) if p == "default_count"));
    assert_eq!(d.entries[1].init, InitPlan::Value(DefaultValue::EmptyString));
}

#[test]
fn field_default_path_preserves_present_field() {
    let input = field_path_default_message();
    let d = de(&input);
    assert!(matches!(d.entries[0].role, FieldRole::Read(_)));
    assert_eq!(d.routes, vec![KeyRoute::Field(0), KeyRoute::Field(1)]);
}

fn field_default_overrides_container_message() -> DeriveInput {
    message(
        "FieldDefaultOverridesContainerMessage",
        vec![pcs(vec![item("default", s("container_default_message"))])],
        vec![count_i64(vec![pcs(vec![bare("default")])]), note()],
    )
}

#[test]
fn field_default_overrides_container_default_for_missing_field() {
    let input = field_default_overrides_container_message();
    let d = de(&input);
    assert!(matches!(&d.container.default, ContainerDefault::Path(p) if p == "container_default_message"));
    assert_eq!(d.entries[0].init, InitPlan::TypeDefault);
    assert_eq!(d.entries[1].init, InitPlan::ContainerDefault);
}

#[test]
fn field_default_still_preserves_present_field_with_container_default() {
    let input = field_default_overrides_container_message();
    let d = de(&input);
    assert!(matches!(d.entries[0].role, FieldRole::Read(_)));
    assert_eq!(d.routes, vec![KeyRoute::Field(0), KeyRoute::Field(1)]);
}

fn check_flatten_merges_nested_fields_into_parent_object() {
    let input = message("FlattenedOuter", vec![], vec![
        field("name", ty("String"), vec![names("name", "name")]),
        field("inner", option(ty("FlattenedInner")), vec![prost(vec![bare("message"), bare("optional"), item("tag", s("2"))]), pcs(vec![bare("flatten")])]),
    ]);
    let p = ser(&input);
    assert_eq!(p.writes, vec![WriteStep::Field(0), WriteStep::Field(1)]);
    assert_eq!(p.entries[1].arm, MatchArm::Flatten);
    let d = de(&input);
    assert_eq!(d.entries[1].role, FieldRole::Flatten { optional: true });
}

fn check_flatten_collision_deserialize_prefers_non_flattened_field() {
    let input = message("OuterFieldCollision", vec![], vec![count_i64(vec![names("count", "count")]), collision_inner()]);
    assert_eq!(de(&input).routes, vec![KeyRoute::Field(0), KeyRoute::Flatten(1)]);
}

fn check_flatten_collision_deserialize_prefers_first_flattened_field() {
    let flat = |name: &str, tag: &str| field(name, option(ty("CollisionInner")), vec![prost(vec![bare("message"), bare("optional"), item("tag", s(tag))]), pcs(vec![bare("flatten")])]);
    let input = message("FirstFlattenCollision", vec![], vec![flat("first", "1"), flat("second", "2")]);
    assert_eq!(de(&input).routes, vec![KeyRoute::Flatten(0), KeyRoute::Flatten(1)]);
}

fn check_flatten_collision_serialize_emits_keys_in_declaration_order() {
    let input = message("OuterFieldCollision", vec![], vec![count_i64(vec![names("count", "count")]), collision_inner()]);
    assert_eq!(ser(&input).writes, vec![WriteStep::Field(0), WriteStep::Field(1)]);
}

#[test]
fn field_skip_omits_serialize_and_defaults_on_deserialize() {
    let input = message("SkippedFieldMessage", vec![], vec![count_i64(vec![pcs(vec![bare("skip")])]), note()]);
    let p = ser(&input);
    assert!(p.entries[0].skipped);
    assert_eq!(p.writes, vec![WriteStep::Field(1)]);
    assert_eq!(p.counts, vec![(1, CountRule::IfNotDefault(DefaultCheck::NonEmpty))]);
    let d = de(&input);
    assert_eq!(d.entries[0].role, FieldRole::Skipped);
    assert_eq!(d.entries[0].init, InitPlan::Value(DefaultValue::Zero));
    assert_eq!(d.routes, vec![KeyRoute::Field(1)]);
}

#[test]
fn field_skip_serializing_omits_serialize_but_keeps_deserialize() {
    let input = message("SkipSerializingFieldMessage", vec![], vec![count_i64(vec![pcs(vec![bare("skip_serializing")])]), note()]);
    assert_eq!(ser(&input).writes, vec![WriteStep::Field(1)]);
    let d = de(&input);
    assert!(matches!(d.entries[0].role, FieldRole::Read(_)));
    assert_eq!(d.routes, vec![KeyRoute::Field(0), KeyRoute::Field(1)]);
}

#[test]
fn field_skip_deserializing_keeps_serialize_and_defaults_on_deserialize() {
    let input = message("SkipDeserializingFieldMessage", vec![], vec![count_i64(vec![pcs(vec![bare("skip_deserializing")])]), note()]);
    let p = ser(&input);
    assert_eq!(p.writes, vec![WriteStep::Field(0), WriteStep::Field(1)]);
    assert_eq!(p.entries[0].arm, MatchArm::Skipped);
    let d = de(&input);
    assert_eq!(d.entries[0].role, FieldRole::Skipped);
    assert_eq!(d.entries[0].init, InitPlan::Value(DefaultValue::Zero));
    assert_eq!(d.routes, vec![KeyRoute::Field(1)]);
}

#[test]
fn field_skip_deserializing_honors_field_default_path() {
    let input = message("SkipDeserializingFieldDefaultMessage", vec![], vec![
        count_i64(vec![pcs(vec![bare("skip_deserializing")]), pcs(vec![item("default", s("default_count"))])]),
        note(),
    ]);
    let d = de(&input);
    assert_eq!(d.entries[0].role, FieldRole::Skipped);
    assert_eq!(d.entries[0].init, InitPlan::FieldPath);
}

#[test]
fn field_skip_deserializing_uses_type_default_instead_of_container_default() {
    let input = message(
        "SkipDeserializingIgnoresContainerDefaultMessage",
        vec![pcs(vec![item("default", s("container_skip_default_message"))])],
        vec![count_i64(vec![pcs(vec![bare("skip_deserializing")])]), note()],
    );
    let d = de(&input);
    assert_eq!(d.entries[0].init, InitPlan::Value(DefaultValue::Zero));
    assert_eq!(d.entries[1].init, InitPlan::ContainerDefault);
}

#[test]
fn variant_rename_applies_to_oneof_serialize_and_deserialize_names() {
    let input = oneof("RenamedChoice", vec![], vec![("Value", vec![pcs(vec![item("rename", pair("wireValue", "wire_value"))])])]);
    let p = ser_enum(&input);
    assert_eq!(p.mode, EnumSerializeMode::Oneof);
    assert_eq!(p.variants[0].serialize_name, "wireValue");
    assert_eq!(p.variants[0].deserialize_name, "wire_value");
}

#[test]
fn variant_rename_applies_to_protobuf_enum_serialize_and_deserialize_names() {
    let input = enumeration("RenamedEnum", vec![("Ready", vec![pcs(vec![item("rename", pair("WIRE_READY", "wire-ready"))])]), ("Idle", vec![])]);
    let p = ser_enum(&input);
    assert_eq!(p.mode, EnumSerializeMode::Enumeration);
    assert_eq!(p.enum_variants.len(), 2);
    assert_eq!(p.enum_variants[0].serialize_name.as_deref(), Some("WIRE_READY"));
    assert_eq!(p.enum_variants[0].deserialize_name.as_deref(), Some("wire-ready"));
    assert_eq!(p.enum_variants[1].serialize_name, None);
}

#[test]
fn variant_alias_applies_to_oneof_deserialize_names() {
    let input = oneof("AliasedChoice", vec![], vec![
        ("Value", vec![pcs(vec![item("alias", s("wire_value"))]), pcs(vec![item("alias", s("wire-value"))])]),
        ("Other", vec![]),
    ]);
    let p = ser_enum(&input);
    assert_eq!(p.variants[0].aliases, vec!["wire_value".to_string(), "wire-value".to_string()]);
    assert!(p.variants[1].aliases.is_empty());
}

#[test]
fn variant_alias_applies_to_protobuf_enum_deserialize_names() {
    let input = enumeration("AliasedEnum", vec![("Ready", vec![pcs(vec![item("alias", s("wire-ready"))]), pcs(vec![item("alias", s("wire_ready"))])]), ("Idle", vec![])]);
    let p = ser_enum(&input);
    assert_eq!(p.enum_variants[0].aliases, vec!["wire-ready".to_string(), "wire_ready".to_string()]);
    assert_eq!(p.enum_variants[0].deserialize_name, None);
}

#[test]
fn variant_skip_rejects_oneof_serialize_and_deserialize() {
    let input = oneof("SkippedChoice", vec![], vec![("Value", vec![pcs(vec![bare("skip")])]), ("Other", vec![])]);
    let p = ser_enum(&input);
    assert!(p.variants[0].skip_serializing && p.variants[0].skip_deserializing);
    assert!(!p.variants[1].skip_serializing && !p.variants[1].skip_deserializing);
}

#[test]
fn variant_skip_serializing_only_rejects_oneof_serialize() {
    let input = oneof("SkipSerializeChoice", vec![], vec![("Value", vec![pcs(vec![bare("skip_serializing")])]), ("Other", vec![])]);
    let p = ser_enum(&input);
    assert!(p.variants[0].skip_serializing && !p.variants[0].skip_deserializing);
}

#[test]
fn variant_skip_deserializing_only_rejects_oneof_deserialize() {
    let input = oneof("SkipDeserializeChoice", vec![pcs(vec![bare("deny_unknown_fields")])], vec![("Value", vec![pcs(vec![bare("skip_deserializing")])]), ("Other", vec![])]);
    let p = ser_enum(&input);
    assert!(!p.variants[0].skip_serializing && p.variants[0].skip_deserializing);
    match expand_deserialize(&input).ok().unwrap() {
        DeserializePlan::Enum(c, mode) => {
            assert_eq!(mode, EnumDeserializeMode::Oneof { on_unknown: UnknownKey::Refuse });
            assert!(c.deny_unknown_fields);
        }
        DeserializePlan::Struct(_) => panic!("an enum"),
    }
}

#[test]
fn variant_skip_rejects_protobuf_enum_serialize_and_deserialize() {
    let input = enumeration("SkippedEnum", vec![("Ready", vec![pcs(vec![bare("skip")])]), ("Idle", vec![])]);
    let p = ser_enum(&input);
    assert!(p.enum_variants[0].skip_serializing && p.enum_variants[0].skip_deserializing);
    assert!(!p.enum_variants[1].skip_serializing && !p.enum_variants[1].skip_deserializing);
}

#[test]
fn variant_skip_serializing_only_rejects_protobuf_enum_serialize() {
    let input = enumeration("SkipSerializeEnum", vec![("Ready", vec![pcs(vec![bare("skip_serializing")])]), ("Idle", vec![])]);
    let p = ser_enum(&input);
    assert!(p.enum_variants[0].skip_serializing && !p.enum_variants[0].skip_deserializing);
}

#[test]
fn variant_skip_deserializing_only_rejects_protobuf_enum_deserialize() {
    let input = enumeration("SkipDeserializeEnum", vec![("Ready", vec![pcs(vec![bare("skip_deserializing")])]), ("Idle", vec![])]);
    let p = ser_enum(&input);
    assert!(!p.enum_variants[0].skip_serializing && p.enum_variants[0].skip_deserializing);
}

#[test]
fn container_expecting_customizes_struct_errors() {
    let input = message("ExpectingMessage", vec![attr("serde", vec![item("expecting", s("a message object"))])], vec![note()]);
    assert_eq!(de(&input).container.expecting.as_deref(), Some("a message object"));
}

#[test]
fn container_expecting_customizes_oneof_errors() {
    let input = oneof("ExpectingChoice", vec![attr("serde", vec![item("expecting", s("a choice object"))])], vec![("Value", vec![])]);
    match expand_deserialize(&input).ok().unwrap() {
        DeserializePlan::Enum(c, _) => assert_eq!(c.expecting.as_deref(), Some("a choice object")),
        DeserializePlan::Struct(_) => panic!("an enum"),
    }
}

#[test]
fn deny_unknown_fields_rejects_unknown_struct_keys() {
    let input = message("StrictMessage", vec![attr("serde", vec![bare("deny_unknown_fields")])], vec![note()]);
    let d = de(&input);
    assert!(d.container.deny_unknown_fields);
    assert_eq!(d.on_unknown, UnknownKey::Refuse);
    assert_eq!(d.routes, vec![KeyRoute::Field(0)]);
}

#[test]
fn tagged_struct_serializes_tag_first_with_renamed_value() {
    let input = message(
        "TaggedMessage",
        vec![attr("serde", vec![item("rename", pair("wire_tag_ser", "wire_tag_de")), item("tag", s("type"))])],
        vec![field("count", ty("i64"), vec![prost(vec![bare("int64"), item("tag", s("1"))])])],
    );
    let p = ser(&input);
    assert_eq!(p.container.serialize_name, "wire_tag_ser");
    assert_eq!(p.writes, vec![WriteStep::Tag, WriteStep::Field(0)]);
    let d = de(&input);
    assert_eq!(d.container.deserialize_name, "wire_tag_de");
    assert_eq!(d.routes, vec![KeyRoute::Tag, KeyRoute::Field(0)]);
}

#[test]
fn rename_all_split_struct_fields() {
    let input = message(
        "SplitRenameAllFields",
        vec![attr("serde", vec![item("rename_all", pair("camelCase", "snake_case"))])],
        vec![field("http_status_code", ty("String"), vec![prost(vec![bare("string"), item("tag", s("1"))])])],
    );
    let p = ser(&input);
    assert_eq!(p.fields[0].serialize_name, "httpStatusCode");
    assert_eq!(p.fields[0].deserialize_name, "http_status_code");
}

fn rename_all_struct(rule: &str) -> DeriveInput {
    message("Fields", vec![attr("serde", vec![item("rename_all", s(rule))])], vec![field("http_status_code", ty("String"), vec![prost(vec![bare("string"), item("tag", s("1"))])])])
}

fn rename_all_oneof(rule: &str) -> DeriveInput {
    oneof("Choice", vec![attr("serde", vec![item("rename_all", s(rule))])], vec![("HttpStatusCode", vec![])])
}

fn check_struct_names(input: &DeriveInput, serialize_key: &str, deserialize_key: &str) {
    let p = ser(input);
    assert_eq!(p.fields[0].serialize_name, serialize_key);
    assert_eq!(p.fields[0].deserialize_name, deserialize_key);
}

fn check_oneof_names(input: &DeriveInput, serialize_key: &str, deserialize_key: &str) {
    let p = ser_enum(input);
    assert_eq!(p.variants[0].serialize_name, serialize_key);
    assert_eq!(p.variants[0].deserialize_name, deserialize_key);
}

#[test]
fn rename_all_split_oneof_variants() {
    let input = oneof("SplitRenameAllChoice", vec![attr("serde", vec![item("rename_all", pair("camelCase", "snake_case"))])], vec![("HttpStatusCode", vec![])]);
    check_oneof_names(&input, "httpStatusCode", "http_status_code");
}

#[test]
fn rename_all_lowercase_struct_fields() {
    check_struct_names(&rename_all_struct("lowercase"), "httpstatuscode", "httpstatuscode");
}

#[test]
fn rename_all_lowercase_oneof_variants() {
    check_oneof_names(&rename_all_oneof("lowercase"), "httpstatuscode", "httpstatuscode");
}

#[test]
fn rename_all_uppercase_struct_fields() {
    check_struct_names(&rename_all_struct("UPPERCASE"), "HTTPSTATUSCODE", "HTTPSTATUSCODE");
}

#[test]
fn rename_all_uppercase_oneof_variants() {
    check_oneof_names(&rename_all_oneof("UPPERCASE"), "HTTPSTATUSCODE", "HTTPSTATUSCODE");
}

#[test]
fn rename_all_pascal_case_struct_fields() {
    check_struct_names(&rename_all_struct("PascalCase"), "HttpStatusCode", "HttpStatusCode");
}

#[test]
fn rename_all_pascal_case_oneof_variants() {
    check_oneof_names(&rename_all_oneof("PascalCase"), "HttpStatusCode", "HttpStatusCode");
}

#[test]
fn rename_all_camel_case_struct_fields() {
    check_struct_names(&rename_all_struct("camelCase"), "httpStatusCode", "httpStatusCode");
}

#[test]
fn rename_all_camel_case_oneof_variants() {
    check_oneof_names(&rename_all_oneof("camelCase"), "httpStatusCode", "httpStatusCode");
}

#[test]
fn rename_all_snake_case_struct_fields() {
    check_struct_names(&rename_all_struct("snake_case"), "http_status_code", "http_status_code");
}

#[test]
fn rename_all_snake_case_oneof_variants() {
    check_oneof_names(&rename_all_oneof("snake_case"), "http_status_code", "http_status_code");
}

#[test]
fn rename_all_screaming_snake_case_struct_fields() {
    check_struct_names(&rename_all_struct("SCREAMING_SNAKE_CASE"), "HTTP_STATUS_CODE", "HTTP_STATUS_CODE");
}

#[test]
fn rename_all_screaming_snake_case_oneof_variants() {
    check_oneof_names(&rename_all_oneof("SCREAMING_SNAKE_CASE"), "HTTP_STATUS_CODE", "HTTP_STATUS_CODE");
}

#[test]
fn rename_all_kebab_case_struct_fields() {
    check_struct_names(&rename_all_struct("kebab-case"), "http-status-code", "http-status-code");
}

#[test]
fn rename_all_kebab_case_oneof_variants() {
    check_oneof_names(&rename_all_oneof("kebab-case"), "http-status-code", "http-status-code");
}

#[test]
fn rename_all_screaming_kebab_case_struct_fields() {
    check_struct_names(&rename_all_struct("SCREAMING-KEBAB-CASE"), "HTTP-STATUS-CODE", "HTTP-STATUS-CODE");
}

#[test]
fn rename_all_screaming_kebab_case_oneof_variants() {
    check_oneof_names(&rename_all_oneof("SCREAMING-KEBAB-CASE"), "HTTP-STATUS-CODE", "HTTP-STATUS-CODE");
}

#[test]
fn field_attributes_flatten_merges_nested_fields_into_parent_object() {
    check_flatten_merges_nested_fields_into_parent_object();
}

#[test]
fn attributes_flatten_merges_nested_fields_into_parent_object() {
    check_flatten_merges_nested_fields_into_parent_object();
}

#[test]
fn field_attributes_flatten_collision_deserialize_prefers_non_flattened_field() {
    check_flatten_collision_deserialize_prefers_non_flattened_field();
}

#[test]
fn attributes_flatten_collision_deserialize_prefers_non_flattened_field() {
    check_flatten_collision_deserialize_prefers_non_flattened_field();
}

#[test]
fn field_attributes_flatten_collision_deserialize_prefers_first_flattened_field() {
    check_flatten_collision_deserialize_prefers_first_flattened_field();
}

#[test]
fn attributes_flatten_collision_deserialize_prefers_first_flattened_field() {
    check_flatten_collision_deserialize_prefers_first_flattened_field();
}

#[test]
fn field_attributes_flatten_collision_serialize_emits_keys_in_declaration_order() {
    check_flatten_collision_serialize_emits_keys_in_declaration_order();
}

#[test]
fn attributes_flatten_collision_serialize_emits_keys_in_declaration_order() {
    check_flatten_collision_serialize_emits_keys_in_declaration_order();
}

fn check_flatten_accepts_proto_field_names_on_deserialize() {
    let inner = message("FlattenedInner", vec![], vec![
        count_i64(vec![names("count", "count")]),
        field("display_name", ty("String"), vec![prost(vec![bare("string"), item("tag", s("2"))]), names("display_name", "displayName")]),
    ]);
    let d = de(&inner);
    assert!(!d.entries[0].with_proto);
    assert!(d.entries[1].with_proto);
    assert_eq!(d.fields[1].proto_name, "display_name");
    assert_eq!(ser(&inner).entries[1].arm, MatchArm::Names { with_proto: true });
}

#[test]
fn field_attributes_flatten_accepts_proto_field_names_on_deserialize() {
    check_flatten_accepts_proto_field_names_on_deserialize();
}

#[test]
fn attributes_flatten_accepts_proto_field_names_on_deserialize() {
    check_flatten_accepts_proto_field_names_on_deserialize();
}

#[test]
fn transparent_uses_inner_canonical_representation() {
    let input = message("TransparentCount", vec![pcs(vec![bare("transparent")])], vec![count_i64(vec![names("count", "count")])]);
    let p = ser(&input);
    assert_eq!(p.mode, SerializeMode::Transparent(TransparentSerializePlan::Single { wrap: ValueWrap::Plain }));
    assert!(p.writes.is_empty());
    let d = de(&input);
    assert_eq!(d.mode, DeserializeMode::Transparent(TransparentReadPlan::Value));
    assert!(d.routes.is_empty());
}

fn value_message(ident: &str, attrs: Vec<Attribute>) -> DeriveInput {
    message(ident, attrs, vec![field("value", ty("String"), vec![prost(vec![bare("string"), item("tag", s("1"))]), names("value", "value")])])
}

#[test]
fn container_rename_applies_to_struct_serialize_and_deserialize_names() {
    let input = value_message("RenamedMessage", vec![attr("serde", vec![item("rename", s("wire_message"))])]);
    assert_eq!(ser(&input).container.serialize_name, "wire_message");
    assert_eq!(de(&input).container.deserialize_name, "wire_message");
}

#[test]
fn container_serde_crate_path_is_accepted_for_structs() {
    let input = value_message("CustomSerdePathMessage", vec![attr("serde", vec![item("crate", s("renamed_serde"))])]);
    assert_eq!(ser(&input).container.serde_path, "renamed_serde");
    assert_eq!(de(&input).container.serde_path, "renamed_serde");
}

#[test]
fn container_rename_supports_independent_newtype_names() {
    let input = value_message("RenamedTransparent", vec![attr("serde", vec![item("rename", pair("wire_box_ser", "wire_box_de"))]), pcs(vec![bare("transparent")])]);
    let p = ser(&input);
    assert_eq!(p.container.serialize_name, "wire_box_ser");
    assert!(matches!(p.mode, SerializeMode::Transparent(_)));
    let d = de(&input);
    assert_eq!(d.container.deserialize_name, "wire_box_de");
    assert!(matches!(d.mode, DeserializeMode::Transparent(_)));
}

#[test]
fn container_rename_applies_to_oneof_enums() {
    let input = oneof("RenamedChoice", vec![attr("serde", vec![item("rename", pair("wire_choice_ser", "wire_choice_de"))])], vec![("Value", vec![])]);
    assert_eq!(ser_enum(&input).container.serialize_name, "wire_choice_ser");
    match expand_deserialize(&input).ok().unwrap() {
        DeserializePlan::Enum(c, _) => assert_eq!(c.deserialize_name, "wire_choice_de"),
        DeserializePlan::Struct(_) => panic!("an enum"),
    }
}

#[test]
fn container_serde_crate_path_is_accepted_for_oneofs() {
    let input = oneof("CustomSerdePathChoice", vec![attr("serde", vec![item("crate", s("renamed_serde"))])], vec![("Value", vec![])]);
    assert_eq!(ser_enum(&input).container.serde_path, "renamed_serde");
}

#[test]
fn deny_unknown_fields_rejects_unknown_oneof_keys() {
    let input = oneof("StrictChoice", vec![attr("serde", vec![bare("deny_unknown_fields")])], vec![("Value", vec![])]);
    match expand_deserialize(&input).ok().unwrap() {
        DeserializePlan::Enum(_, mode) => assert_eq!(mode, EnumDeserializeMode::Oneof { on_unknown: UnknownKey::Refuse }),
        DeserializePlan::Struct(_) => panic!("an enum"),
    }
}

#[test]
fn unknown_fields_are_ignored_without_deny_unknown_fields() {
    let input = value_message("RenamedMessage", vec![attr("serde", vec![item("rename", s("wire_message"))])]);
    assert_eq!(de(&input).on_unknown, UnknownKey::Skip);
}

fn defaulted(ident: &str, default: MetaArg) -> DeriveInput {
    message(ident, vec![attr("serde", vec![item("default", default)])], vec![count_i64(vec![]), note()])
}

#[test]
fn container_default_fills_missing_fields_from_default_impl() {
    let input = defaulted("ContainerDefaultMessage", MetaArg::Bare);
    let d = de(&input);
    assert!(matches!(d.container.default, ContainerDefault::Default));
    assert_eq!(d.entries[0].init, InitPlan::ContainerDefault);
    assert_eq!(d.entries[1].init, InitPlan::ContainerDefault);
}

#[test]
fn container_default_preserves_present_fields() {
    let input = defaulted("ContainerDefaultMessage", MetaArg::Bare);
    let d = de(&input);
    assert!(matches!(d.entries[0].role, FieldRole::Read(_)));
    assert_eq!(d.routes, vec![KeyRoute::Field(0), KeyRoute::Field(1)]);
}

#[test]
fn container_default_path_fills_missing_fields() {
    let input = defaulted("PathDefaultMessage", s("custom_default_message"));
    let d = de(&input);
    assert!(matches!(&d.container.default, ContainerDefault::Path(p) if p == "custom_default_message"));
    assert_eq!(d.entries[0].init, InitPlan::ContainerDefault);
}

#[test]
fn container_from_deserializes_through_intermediate_type() {
    let input = value_message("FromConvertedMessage", vec![attr("serde", vec![item("from", s("FromWireMessage"))])]);
    let d = de(&input);
    assert_eq!(d.mode, DeserializeMode::Conversion);
    assert!(matches!(&d.container.deserialize_via, DeserializeVia::From(t) if t == "FromWireMessage"));
}

#[test]
fn container_into_serializes_through_intermediate_type() {
    let input = value_message("IntoConvertedMessage", vec![attr("serde", vec![item("into", s("IntoWireMessage"))])]);
    let p = ser(&input);
    assert_eq!(p.mode, SerializeMode::Conversion);
    assert!(matches!(&p.container.serialize_via, SerializeVia::Into(t) if t == "IntoWireMessage"));
}

#[test]
fn container_try_from_deserializes_through_intermediate_type() {
    let input = oneof("TryFromChoice", vec![attr("serde", vec![item("try_from", s("TryFromWireChoice"))])], vec![("Value", vec![])]);
    match expand_deserialize(&input).ok().unwrap() {
        DeserializePlan::Enum(c, mode) => {
            assert_eq!(mode, EnumDeserializeMode::Conversion);
            assert!(matches!(&c.deserialize_via, DeserializeVia::TryFrom(t) if t == "TryFromWireChoice"));
        }
        DeserializePlan::Struct(_) => panic!("an enum"),
    }
}

#[test]
fn container_into_serializes_oneof_through_intermediate_type() {
    let input = oneof("IntoChoice", vec![attr("serde", vec![item("into", s("IntoWireChoice"))])], vec![("Value", vec![])]);
    let p = ser_enum(&input);
    assert_eq!(p.mode, EnumSerializeMode::OneofConversion);
    assert_eq!(p.variants.len(), 1);
}

#[test]
fn container_try_from_propagates_conversion_errors() {
    let input = value_message("TryFromMessage", vec![attr("serde", vec![item("try_from", s("TryFromWire"))])]);
    let d = de(&input);
    assert_eq!(d.mode, DeserializeMode::Conversion);
    assert!(matches!(&d.container.deserialize_via, DeserializeVia::TryFrom(_)));
}

fn tagged_message() -> DeriveInput {
    message(
        "TaggedMessage",
        vec![attr("serde", vec![item("rename", pair("wire_tag_ser", "wire_tag_de")), item("tag", s("type"))])],
        vec![field("count", ty("i64"), vec![prost(vec![bare("int64"), item("tag", s("1"))])])],
    )
}

#[test]
fn tagged_struct_requires_matching_tag_on_deserialize() {
    let input = tagged_message();
    let d = de(&input);
    assert_eq!(d.container.tag.as_deref(), Some("type"));
    assert_eq!(d.container.deserialize_name, "wire_tag_de");
    assert_eq!(d.routes[0], KeyRoute::Tag);
}

#[test]
fn tagged_struct_rejects_missing_tag_on_deserialize() {
    let input = tagged_message();
    assert_eq!(de(&input).routes, vec![KeyRoute::Tag, KeyRoute::Field(0)]);
}

#[test]
fn tagged_struct_rejects_wrong_tag_on_deserialize() {
    let input = tagged_message();
    let d = de(&input);
    assert_eq!(d.routes[0], KeyRoute::Tag);
    assert_ne!(d.container.deserialize_name, "wire_tag_ser");
}

#[test]
fn kitchen_sink_canonical_json_roundtrip() {
    let scalar = |name: &str, t: &str, kind: &str, tag: &str| field(name, ty(t), vec![prost(vec![bare(kind), item("tag", s(tag))])]);
    let vec_of = |inner: TypeRepr| TypeRepr { id: 0, shape: TypeShape::Path(vec![PathSegment { ident: "Vec".to_string(), args: PathArgs::Angle(vec![GenericArg::Type(inner)]) }]) };
    let map_of = |k: TypeRepr, v: TypeRepr| TypeRepr { id: 0, shape: TypeShape::Path(vec![PathSegment { ident: "HashMap".to_string(), args: PathArgs::Angle(vec![GenericArg::Type(k), GenericArg::Type(v)]) }]) };
    let input = message("KitchenSink", vec![], vec![
        scalar("int32_field", "i32", "int32", "1"),
        scalar("int64_field", "i64", "int64", "2"),
        scalar("uint64_field", "u64", "uint64", "3"),
        scalar("bool_field", "bool", "bool", "4"),
        scalar("string_field", "String", "string", "5"),
        field("bytes_field", vec_of(ty("u8")), vec![prost(vec![item("bytes", s("vec")), item("tag", s("6"))])]),
        scalar("float_field", "f32", "float", "7"),
        scalar("double_field", "f64", "double", "8"),
        field("status", ty("i32"), vec![prost(vec![item("enumeration", s("Status")), item("tag", s("9"))])]),
        field("nested", option(ty("Nested")), vec![prost(vec![bare("message"), bare("optional"), item("tag", s("10"))])]),
        field("repeated_nested", vec_of(ty("Nested")), vec![prost(vec![bare("message"), bare("repeated"), item("tag", s("11"))])]),
        field("string_to_int", map_of(ty("String"), ty("i32")), vec![prost(vec![item("map", s("string, int32")), item("tag", s("12"))])]),
        field("int_to_string", map_of(ty("i32"), ty("String")), vec![prost(vec![item("map", s("int32, string")), item("tag", s("13"))])]),
        field("choice", option(ty("kitchen_sink::Choice")), vec![prost(vec![item("oneof", s("kitchen_sink::Choice")), item("tags", s("14, 15"))])]),
        field("timestamp", option(ty("prost_types::Timestamp")), vec![prost(vec![bare("message"), bare("optional"), item("tag", s("16"))])]),
        field("optional_int32", option(ty("i32")), vec![prost(vec![bare("int32"), bare("optional"), item("tag", s("17"))])]),
    ]);
    let p = ser(&input);
    let d = de(&input);
    let n = p.fields.len();
    assert_eq!(n, 16);
    // Every field is written, in declaration order, under the name it is read by.
    assert_eq!(p.writes, (0..n).map(WriteStep::Field).collect::<Vec<_>>());
    for i in 0..n {
        assert_eq!(p.fields[i].serialize_name, d.fields[i].deserialize_name);
    }
    assert_eq!(p.fields[1].serialize_name, "int64Field");
    // The oneof is offered keys first, then every other field, in order.
    let mut expected = vec![KeyRoute::Oneof(13)];
    expected.extend((0..n).filter(|i| *i != 13).map(KeyRoute::Field));
    assert_eq!(d.routes, expected);
    assert_eq!(d.on_unknown, UnknownKey::Skip);
}

#[test]
fn split_words_ignores_case_and_separators() {
    let expected = vec!["http".to_string(), "status".to_string(), "code".to_string()];
    assert_eq!(split_words("HttpStatusCode"), expected);
    assert_eq!(split_words("http_status_code"), expected);
    assert_eq!(split_words("HTTP-STATUS-CODE"), expected);
    assert_eq!(split_words("HTTPStatus_code").concat(), "httpstatuscode");
}

#[test]
fn oneof_variant_plans_give_the_names_that_read_each_variant() {
    let input = oneof("AliasedChoice", vec![], vec![
        ("Value", vec![pcs(vec![item("alias", s("wire_value"))]), pcs(vec![item("alias", s("wire-value"))])]),
        ("Other", vec![pcs(vec![bare("skip_deserializing")])]),
        ("Gone", vec![pcs(vec![bare("skip_serializing")]), names("gone_value", "goneValue")]),
    ]);
    let p = ser_enum(&input);
    let plans = plan_oneof_variants(&p.variants);
    assert_eq!(plans[0].read_names, vec!["value".to_string(), "wire_value".to_string(), "wire-value".to_string()]);
    assert!(!plans[0].refuse_write);
    assert!(plans[1].read_names.is_empty());
    assert!(plans[2].refuse_write);
    assert_eq!(plans[2].read_names, vec!["goneValue".to_string(), "gone_value".to_string()]);
}

#[test]
fn enum_variant_plans_give_names_and_numbers() {
    let input = enumeration("RenamedEnum", vec![
        ("Ready", vec![pcs(vec![item("rename", pair("WIRE_READY", "wire-ready"))]), pcs(vec![item("alias", s("ready"))])]),
        ("Idle", vec![]),
        ("Gone", vec![pcs(vec![bare("skip")])]),
    ]);
    let p = ser_enum(&input);
    let plans = plan_enum_variants(&p.enum_variants);
    assert!(matches!(&plans[0].write, EnumWrite::Name(n) if n == "WIRE_READY"));
    assert_eq!(plans[0].read_names, vec!["wire-ready".to_string(), "ready".to_string()]);
    assert!(!plans[0].reads_proto_name && plans[0].reads_number);
    assert!(matches!(plans[1].write, EnumWrite::ProtoName));
    assert!(plans[1].reads_proto_name && plans[1].reads_number);
    assert!(matches!(plans[2].write, EnumWrite::Refuse));
    assert!(plans[2].read_names.is_empty() && !plans[2].reads_proto_name && !plans[2].reads_number);
}
