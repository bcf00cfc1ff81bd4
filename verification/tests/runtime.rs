use prost_canonical_serde::runtime::{MapObjectSerializer, OneofMatch, ProstEnum, StructObjectSerializer};
use serde::ser::{SerializeMap, SerializeStruct, Serializer};

#[derive(Clone, Copy, Debug, PartialEq)]
enum Status {
    Ready,
    Idle,
}

impl ProstEnum for Status {
    fn from_i32(value: i32) -> Option<Self> {
        match value {
            0 => Some(Self::Ready),
            1 => Some(Self::Idle),
            _ => None,
        }
    }

    fn from_str_name(value: &str) -> Option<Self> {
        match value {
            "READY" => Some(Self::Ready),
            "IDLE" => Some(Self::Idle),
            _ => None,
        }
    }

    fn as_str_name(&self) -> &'static str {
        match self {
            Self::Ready => "READY",
            Self::Idle => "IDLE",
        }
    }

    fn as_i32(&self) -> i32 {
        match self {
            Self::Ready => 0,
            Self::Idle => 1,
        }
    }
}

#[test]
fn prost_enum_skips_no_variant_by_default() {
    assert!(!Status::is_variant_skipped_for_serialization(0));
    assert!(!Status::is_variant_skipped_for_deserialization(1));
    assert_eq!(Status::from_i32(1), Some(Status::Idle));
    assert_eq!(Status::Idle.as_str_name(), "IDLE");
}

#[test]
fn map_adapter_hands_back_its_serializer() {
    let mut out = Vec::new();
    let mut ser = serde_json::Serializer::new(&mut out);
    let mut map = MapObjectSerializer::new(ser.serialize_map(None).unwrap());
    map.inner_mut().serialize_entry("count", "1").unwrap();
    SerializeMap::end(map.into_inner()).unwrap();
    assert_eq!(String::from_utf8(out).unwrap(), r#"{"count":"1"}"#);
}

#[test]
fn struct_adapter_hands_back_its_serializer() {
    let mut out = Vec::new();
    let mut ser = serde_json::Serializer::new(&mut out);
    let mut st = StructObjectSerializer::new(ser.serialize_struct("Demo", 2).unwrap());
    st.inner_mut().serialize_field("type", "wire_tag_ser").unwrap();
    st.inner_mut().serialize_field("count", "7").unwrap();
    SerializeStruct::end(st.into_inner()).unwrap();
    assert_eq!(String::from_utf8(out).unwrap(), r#"{"type":"wire_tag_ser","count":"7"}"#);
}

#[test]
fn oneof_match_carries_the_value() {
    let m: OneofMatch<i32> = OneofMatch::Matched(Some(3));
    assert!(matches!(m, OneofMatch::Matched(Some(3))));
    let n: OneofMatch<i32> = OneofMatch::NoMatch;
    assert!(matches!(n, OneofMatch::NoMatch));
}
