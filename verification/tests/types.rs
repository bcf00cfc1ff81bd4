use prost_canonical_serde::error::DeriveErrorKind;
use prost_canonical_serde::types::{
    apply_enum, classify_key, classify_type, extract_generic, extract_map_types, is_message_like,
    is_prost_value_type, path_ends_with, path_ends_with_ident, GenericArg, KeyKind, Kind, MapKind,
    PathArgs, PathSegment, ScalarKind, TypeRepr, TypeShape,
};

fn plain(path: &str, id: usize) -> TypeRepr {
    TypeRepr {
        id,
        shape: TypeShape::Path(path.split("::").map(|s| PathSegment { ident: s.to_string(), args: PathArgs::Plain }).collect()),
    }
}

fn generic(name: &str, args: Vec<TypeRepr>, id: usize) -> TypeRepr {
    TypeRepr {
        id,
        shape: TypeShape::Path(vec![PathSegment {
            ident: name.to_string(),
            args: PathArgs::Angle(args.into_iter().map(GenericArg::Type).collect()),
        }]),
    }
}

fn kind(ty: &TypeRepr) -> Kind {
    classify_type(ty).ok().expect("type classifies")
}

#[test]
fn scalars_classify_by_last_segment() {
    assert!(matches!(kind(&plain("i64", 0)), Kind::Scalar(ScalarKind::I64)));
    assert!(matches!(kind(&plain("std::string::String", 0)), Kind::Scalar(ScalarKind::Text)));
    assert!(matches!(kind(&plain("bool", 0)), Kind::Scalar(ScalarKind::Bool)));
    assert!(matches!(kind(&plain("f32", 0)), Kind::Scalar(ScalarKind::F32)));
    assert!(matches!(kind(&plain("Nested", 0)), Kind::Message));
}

#[test]
fn well_known_types_need_the_prost_types_path() {
    assert!(matches!(kind(&plain("prost_types::Timestamp", 0)), Kind::Timestamp));
    assert!(matches!(kind(&plain("::prost_types::Duration", 0)), Kind::Duration));
    assert!(matches!(kind(&plain("Timestamp", 0)), Kind::Message));
}

#[test]
fn containers_classify_recursively() {
    let opt = generic("Option", vec![plain("i32", 1)], 0);
    assert!(matches!(kind(&opt), Kind::Optional(inner) if matches!(*inner, Kind::Scalar(ScalarKind::I32))));
    let bytes = generic("Vec", vec![plain("u8", 1)], 0);
    assert!(matches!(kind(&bytes), Kind::Bytes));
    let list = generic("Vec", vec![plain("Nested", 1)], 0);
    assert!(matches!(kind(&list), Kind::Repeated(inner) if matches!(*inner, Kind::Message)));
    let map = generic("HashMap", vec![plain("String", 1), plain("i32", 2)], 0);
    assert!(matches!(kind(&map), Kind::Keyed(MapKind::Hash, KeyKind::Text, v) if matches!(*v, Kind::Scalar(ScalarKind::I32))));
    let bmap = generic("BTreeMap", vec![plain("u64", 1), plain("String", 2)], 0);
    assert!(matches!(kind(&bmap), Kind::Keyed(MapKind::BTree, KeyKind::U64, _)));
}

#[test]
fn map_keys_must_be_strings_bools_or_integers() {
    let map = generic("HashMap", vec![plain("f64", 1), plain("i32", 2)], 0);
    let e = classify_type(&map).err().expect("float keys are refused");
    assert_eq!(e.kind, DeriveErrorKind::UnsupportedMapKey);
    assert_eq!(e.message(), "unsupported map key type");
    assert_eq!(classify_key(&plain("bool", 0)).ok(), Some(KeyKind::Bool));
    assert_eq!(classify_key(&plain("i64", 0)).ok(), Some(KeyKind::I64));
}

#[test]
fn enumerations_mark_the_i32_inside() {
    assert!(matches!(apply_enum(Kind::Scalar(ScalarKind::I32)), Kind::Enumeration));
    let list = kind(&generic("Vec", vec![plain("i32", 1)], 0));
    assert!(matches!(apply_enum(list), Kind::Repeated(inner) if matches!(*inner, Kind::Enumeration)));
    let map = kind(&generic("HashMap", vec![plain("String", 1), plain("i32", 2)], 0));
    assert!(matches!(apply_enum(map), Kind::Keyed(_, _, v) if matches!(*v, Kind::Enumeration)));
    assert!(matches!(apply_enum(Kind::Scalar(ScalarKind::I64)), Kind::Scalar(ScalarKind::I64)));
}

#[test]
fn generic_arguments_are_found_by_position() {
    let opt = generic("Option", vec![plain("Nested", 7)], 0);
    assert_eq!(extract_generic(&opt, "Option", 0).map(|t| t.id), Some(7));
    assert!(extract_generic(&opt, "Vec", 0).is_none());
    assert!(extract_generic(&opt, "Option", 1).is_none());
    let map = generic("BTreeMap", vec![plain("String", 3), plain("Nested", 4)], 0);
    let (mk, k, v) = extract_map_types(&map).expect("a map");
    assert_eq!((mk, k.id, v.id), (MapKind::BTree, 3, 4));
    assert!(path_ends_with_ident(&plain("a::b::Value", 0), "Value"));
    assert!(path_ends_with(&plain("a::prost_types::Timestamp", 0), "prost_types", "Timestamp"));
    assert!(!path_ends_with(&plain("Timestamp", 0), "prost_types", "Timestamp"));
}

#[test]
fn prost_value_and_message_like() {
    assert!(is_prost_value_type(&plain("::prost_types::Value", 0)));
    assert!(!is_prost_value_type(&plain("Value", 0)));
    assert!(is_message_like(&Kind::Message));
    assert!(is_message_like(&Kind::Optional(Box::new(Kind::Message))));
    assert!(!is_message_like(&Kind::Scalar(ScalarKind::I32)));
}
