//! What holds of the per-kind choices: when a value is written, how it is
//! wrapped and read back, and which Rust types have which kinds.
use vstd::prelude::*;
use crate::error::{plain, DeriveErrorKind};
use crate::shape::{
    check_of, default_of, read_plan_of, serialize_plan_of, transparent_read_of,
    transparent_serialize_of, DefaultCheck, DefaultValue, ReadPlan, SerializeFieldPlan,
    TransparentReadPlan, TransparentSerializePlan, ValueWrap,
};
use crate::types::{ends_with_ident, generic_arg, kind_of, last_seg, map_types, KeyKind, Kind, ScalarKind, TypeRepr};

verus! {

/// A field's value at run time, as far as the written-when tests look at it.
pub enum FieldValue {
    /// A `bool`.
    Flag(bool),
    /// An integer or an enumeration's number.
    Number(int),
    /// A float, told apart only by being zero or not.
    Float { zero: bool },
    /// A `String` of the given length.
    Text(nat),
    /// A `Vec<u8>` of the given length.
    Bytes(nat),
    /// A list of the given length.
    List(nat),
    /// A map with the given number of entries.
    Entries(nat),
    /// An `Option`: whether it is `Some`.
    Opt(bool),
    /// A message, timestamp or duration: whether it equals its default.
    Msg { is_default: bool },
}

/// The values that a field of the kind can hold.
pub open spec fn fits(kind: Kind, v: FieldValue) -> bool {
    match kind {
        Kind::Scalar(ScalarKind::Bool) => v is Flag,
        Kind::Scalar(ScalarKind::I32) | Kind::Scalar(ScalarKind::U32) | Kind::Scalar(ScalarKind::I64)
        | Kind::Scalar(ScalarKind::U64) | Kind::Enumeration => v is Number,
        Kind::Scalar(ScalarKind::F32) | Kind::Scalar(ScalarKind::F64) => v is Float,
        Kind::Scalar(ScalarKind::Text) => v is Text,
        Kind::Bytes => v is Bytes,
        Kind::Repeated(_) => v is List,
        Kind::Keyed(_, _, _) => v is Entries,
        Kind::Optional(_) => v is Opt,
        Kind::Timestamp | Kind::Duration | Kind::Message => v is Msg,
    }
}

/// Whether the generated test lets the value through.
pub open spec fn passes(c: DefaultCheck, v: FieldValue) -> bool {
    match c {
        DefaultCheck::IsTrue => v matches FieldValue::Flag(b) && b,
        DefaultCheck::NonZero => v matches FieldValue::Number(n) && n != 0,
        DefaultCheck::NonZeroFloat => v matches FieldValue::Float { zero } && !zero,
        DefaultCheck::NonEmpty => match v {
            FieldValue::Text(n) | FieldValue::Bytes(n) | FieldValue::List(n) | FieldValue::Entries(n) => n > 0,
            _ => false,
        },
        DefaultCheck::Always => true,
        DefaultCheck::IsSome => v matches FieldValue::Opt(s) && s,
    }
}

/// Whether the value is the starting value `d`.
pub open spec fn is_default(d: DefaultValue, v: FieldValue) -> bool {
    match d {
        DefaultValue::False => v == FieldValue::Flag(false),
        DefaultValue::Zero => v == FieldValue::Number(0),
        DefaultValue::ZeroFloat => v == (FieldValue::Float { zero: true }),
        DefaultValue::EmptyString => v == FieldValue::Text(0),
        DefaultValue::EmptyVec => v == FieldValue::Bytes(0) || v == FieldValue::List(0),
        DefaultValue::EmptyMap(_) => v == FieldValue::Entries(0),
        DefaultValue::Nothing => v == FieldValue::Opt(false),
        DefaultValue::TimestampDefault | DefaultValue::DurationDefault | DefaultValue::TypeDefault
            => v == (FieldValue::Msg { is_default: true }),
    }
}

/// A plain field's entry is left out exactly when it holds the protobuf
/// default of its kind (`false`, zero, an empty string, list or map,
/// `None`); message, timestamp and duration fields are written whatever
/// they hold.
pub proof fn law_written_unless_protobuf_default(kind: Kind, v: FieldValue)
    requires
        fits(kind, v),
    ensures
        kind is Timestamp || kind is Duration || kind is Message ==> passes(check_of(kind), v),
        !(kind is Timestamp || kind is Duration || kind is Message)
            ==> (passes(check_of(kind), v) <==> !is_default(default_of(kind), v)),
{
}

/// Every kind's protobuf default is a value of that kind, and a field of
/// a kind other than a message, timestamp or duration can hold a value that
/// is written.
pub proof fn law_defaults_fit_and_others_are_written(kind: Kind)
    ensures
        exists|v: FieldValue| fits(kind, v) && is_default(default_of(kind), v),
        !(kind is Timestamp || kind is Duration || kind is Message)
            ==> exists|v: FieldValue| fits(kind, v) && passes(check_of(kind), v),
{
    let (d, w) = match kind {
        Kind::Scalar(ScalarKind::Bool) => (FieldValue::Flag(false), FieldValue::Flag(true)),
        Kind::Scalar(ScalarKind::I32) | Kind::Scalar(ScalarKind::U32) | Kind::Scalar(ScalarKind::I64)
        | Kind::Scalar(ScalarKind::U64) | Kind::Enumeration => (FieldValue::Number(0), FieldValue::Number(1)),
        Kind::Scalar(ScalarKind::F32) | Kind::Scalar(ScalarKind::F64) => (FieldValue::Float { zero: true }, FieldValue::Float { zero: false }),
        Kind::Scalar(ScalarKind::Text) => (FieldValue::Text(0), FieldValue::Text(1)),
        Kind::Bytes => (FieldValue::Bytes(0), FieldValue::Bytes(1)),
        Kind::Repeated(_) => (FieldValue::List(0), FieldValue::List(1)),
        Kind::Keyed(_, _, _) => (FieldValue::Entries(0), FieldValue::Entries(1)),
        Kind::Optional(_) => (FieldValue::Opt(false), FieldValue::Opt(true)),
        Kind::Timestamp | Kind::Duration | Kind::Message => (FieldValue::Msg { is_default: true }, FieldValue::Msg { is_default: false }),
    };
    assert(fits(kind, d) && is_default(default_of(kind), d));
    if !(kind is Timestamp || kind is Duration || kind is Message) {
        assert(fits(kind, w) && passes(check_of(kind), w));
    }
}

/// The kind of what a field holds one by one: the item of a list, the value
/// of a map or `Option`, else the field's own kind.
pub open spec fn element_kind(kind: Kind) -> Kind {
    match kind {
        Kind::Optional(inner) | Kind::Repeated(inner) => *inner,
        Kind::Keyed(_, _, value) => *value,
        other => other,
    }
}

/// Whether a read plan reads enumerations by name or number.
pub open spec fn reads_by_name(p: ReadPlan) -> bool {
    p is OptionalEnumeration || p is RepeatedEnumeration || p is KeyedEnumeration || p is EnumerationIfPresent
}

/// Whether a field's entry writes enumerations by name.
pub open spec fn writes_by_name(p: SerializeFieldPlan) -> bool {
    match p {
        SerializeFieldPlan::Single { wrap, .. } | SerializeFieldPlan::Optional { wrap } => wrap is Enumeration,
        SerializeFieldPlan::Repeated { enums } | SerializeFieldPlan::Keyed { enums } => enums,
        _ => false,
    }
}

/// An entry is read by enumeration name or number exactly when what the
/// field holds one by one is an enumeration, and exactly when the same field
/// is written by enumeration name; a plain enumeration field keeps the
/// value only when it is present. (A `prost_types::Value` option is read as
/// such a value, and is left out here.)
pub proof fn law_enumerations_are_read_by_name(kind: Kind, option_inner: Option<TypeRepr>, vec_inner: Option<TypeRepr>)
    ensures
        kind is Enumeration ==> read_plan_of(kind, option_inner, vec_inner) == Ok::<ReadPlan, (DeriveErrorKind, Seq<char>)>(ReadPlan::EnumerationIfPresent),
        read_plan_of(kind, option_inner, vec_inner) matches Ok(p) ==> (!(p is OptionalProstValue) ==> {
            &&& reads_by_name(p) <==> element_kind(kind) is Enumeration
            &&& reads_by_name(p) <==> writes_by_name(serialize_plan_of(kind, false, false))
        }),
        read_plan_of(kind, option_inner, vec_inner) matches Ok(p) ==> {
            &&& p is OptionalValue || p is OptionalEnumeration || p is OptionalProstValue <==> kind is Optional
            &&& p is RepeatedValue || p is RepeatedEnumeration <==> kind is Repeated
            &&& p is KeyedValue || p is KeyedEnumeration <==> kind is Keyed
        },
{
}

/// Whether a transparent read plan reads enumerations by name or number.
pub open spec fn transparent_reads_by_name(p: TransparentReadPlan) -> bool {
    p is OptionalEnumeration || p is RepeatedEnumeration || p is KeyedEnumeration || p is Enumeration
}

/// Whether a transparent field is written by enumeration name.
pub open spec fn transparent_writes_by_name(p: TransparentSerializePlan) -> bool {
    match p {
        TransparentSerializePlan::Single { wrap } | TransparentSerializePlan::Optional { wrap } => wrap is Enumeration,
        TransparentSerializePlan::Repeated { enums } | TransparentSerializePlan::Keyed { enums } => enums,
    }
}

/// The single field of a transparent struct is written as the same field
/// would be inside an object (an enumeration by name, anything else as its
/// value), and read back as a value of the same shape, by enumeration name
/// exactly when it is written so.
pub proof fn law_transparent_field_is_written_as_in_an_object(kind: Kind, option_inner: Option<TypeRepr>, vec_inner: Option<TypeRepr>)
    ensures
        serialize_plan_of(kind, false, false) matches SerializeFieldPlan::Single { wrap, .. }
            ==> transparent_serialize_of(kind) == (TransparentSerializePlan::Single { wrap }),
        serialize_plan_of(kind, false, false) matches SerializeFieldPlan::Optional { wrap }
            ==> transparent_serialize_of(kind) == (TransparentSerializePlan::Optional { wrap }),
        serialize_plan_of(kind, false, false) matches SerializeFieldPlan::Repeated { enums }
            ==> transparent_serialize_of(kind) == (TransparentSerializePlan::Repeated { enums }),
        serialize_plan_of(kind, false, false) matches SerializeFieldPlan::Keyed { enums }
            ==> transparent_serialize_of(kind) == (TransparentSerializePlan::Keyed { enums }),
        transparent_writes_by_name(transparent_serialize_of(kind)) <==> element_kind(kind) is Enumeration,
        transparent_read_of(kind, option_inner, vec_inner) matches Ok(p) ==> {
            &&& transparent_reads_by_name(p) <==> element_kind(kind) is Enumeration
            &&& transparent_reads_by_name(p) <==> transparent_writes_by_name(transparent_serialize_of(kind))
            &&& p is OptionalValue || p is OptionalEnumeration <==> kind is Optional
            &&& p is RepeatedValue || p is RepeatedEnumeration <==> kind is Repeated
            &&& p is KeyedValue || p is KeyedEnumeration <==> kind is Keyed
        },
{
}

/// A path type whose last segment names a scalar (`bool`, `i32`, `u32`,
/// `i64`, `u64`, `f32`, `f64`, `String`) has that scalar kind, whatever path
/// comes before it.
pub proof fn law_scalar_names_classify(ty: TypeRepr)
    ensures
        ends_with_ident(ty, "bool"@) ==> kind_of(ty) == Ok::<Kind, (DeriveErrorKind, Seq<char>)>(Kind::Scalar(ScalarKind::Bool)),
        ends_with_ident(ty, "i32"@) ==> kind_of(ty) == Ok::<Kind, (DeriveErrorKind, Seq<char>)>(Kind::Scalar(ScalarKind::I32)),
        ends_with_ident(ty, "u32"@) ==> kind_of(ty) == Ok::<Kind, (DeriveErrorKind, Seq<char>)>(Kind::Scalar(ScalarKind::U32)),
        ends_with_ident(ty, "i64"@) ==> kind_of(ty) == Ok::<Kind, (DeriveErrorKind, Seq<char>)>(Kind::Scalar(ScalarKind::I64)),
        ends_with_ident(ty, "u64"@) ==> kind_of(ty) == Ok::<Kind, (DeriveErrorKind, Seq<char>)>(Kind::Scalar(ScalarKind::U64)),
        ends_with_ident(ty, "f32"@) ==> kind_of(ty) == Ok::<Kind, (DeriveErrorKind, Seq<char>)>(Kind::Scalar(ScalarKind::F32)),
        ends_with_ident(ty, "f64"@) ==> kind_of(ty) == Ok::<Kind, (DeriveErrorKind, Seq<char>)>(Kind::Scalar(ScalarKind::F64)),
        ends_with_ident(ty, "String"@) ==> kind_of(ty) == Ok::<Kind, (DeriveErrorKind, Seq<char>)>(Kind::Scalar(ScalarKind::Text)),
{
    reveal_strlit("bool");
    reveal_strlit("i32");
    reveal_strlit("u32");
    reveal_strlit("i64");
    reveal_strlit("u64");
    reveal_strlit("f32");
    reveal_strlit("f64");
    reveal_strlit("String");
    reveal_strlit("Option");
    reveal_strlit("Vec");
    reveal_strlit("HashMap");
    reveal_strlit("BTreeMap");
    let names: Seq<Seq<char>> = seq!["bool"@, "i32"@, "u32"@, "i64"@, "u64"@, "f32"@, "f64"@, "String"@];
    assert(names[0][0] == 'b' && names[1][0] == 'i' && names[2][0] == 'u' && names[3][0] == 'i');
    assert(names[4][0] == 'u' && names[5][0] == 'f' && names[6][0] == 'f' && names[7][0] == 'S');
    assert(names[1][1] == '3' && names[3][1] == '6' && names[2][1] == '3' && names[4][1] == '6');
    assert(names[5][1] == '3' && names[6][1] == '6');
    assert("Option"@[0] == 'O' && "Vec"@[0] == 'V' && "HashMap"@[0] == 'H' && "BTreeMap"@[0] == 'B');
    if let Some(seg) = last_seg(ty) {
        let id = seg.ident@;
        if exists|k: int| 0 <= k < 8 && id == #[trigger] names[k] {
            assert(id != "Option"@ && id != "Vec"@ && id != "HashMap"@ && id != "BTreeMap"@) by {
                assert(id[0] != 'O' && id[0] != 'V' && id[0] != 'H' && id[0] != 'B');
            }
            assert(generic_arg(ty, "Option"@, 0) is None);
            assert(generic_arg(ty, "Vec"@, 0) is None);
            assert(map_types(ty) is None);
        }
    }
}

/// `Option<T>` is optional with `T`'s kind; `Vec<u8>` is bytes, any other
/// `Vec<T>` a list of `T`'s kind; a type whose inner type is refused is
/// refused with it.
pub proof fn law_wrapper_types_classify(ty: TypeRepr)
    ensures
        generic_arg(ty, "Option"@, 0) matches Some(inner) ==> kind_of(ty) == match kind_of(inner) {
            Ok(k) => Ok::<Kind, (DeriveErrorKind, Seq<char>)>(Kind::Optional(Box::new(k))),
            Err(e) => Err(e),
        },
        generic_arg(ty, "Vec"@, 0) matches Some(inner) ==> kind_of(ty) == if ends_with_ident(inner, "u8"@) {
            Ok::<Kind, (DeriveErrorKind, Seq<char>)>(Kind::Bytes)
        } else {
            match kind_of(inner) {
                Ok(k) => Ok::<Kind, (DeriveErrorKind, Seq<char>)>(Kind::Repeated(Box::new(k))),
                Err(e) => Err(e),
            }
        },
{
    reveal_strlit("Option");
    reveal_strlit("Vec");
    if generic_arg(ty, "Vec"@, 0) is Some {
        assert("Vec"@[0] != "Option"@[0]);
        assert(generic_arg(ty, "Option"@, 0) is None);
    }
}

/// A map's key is a string, `bool` or one of the four integer types, each of
/// its own key kind; a map with any other key type is refused.
pub proof fn law_map_keys_classify(ty: TypeRepr)
    ensures
        map_types(ty) matches Some((mk, key, value)) ==> {
            &&& kind_of(value) matches Ok(vk) ==> {
                &&& ends_with_ident(key, "String"@) ==> kind_of(ty) == Ok::<Kind, (DeriveErrorKind, Seq<char>)>(Kind::Keyed(mk, KeyKind::Text, Box::new(vk)))
                &&& ends_with_ident(key, "bool"@) ==> kind_of(ty) == Ok::<Kind, (DeriveErrorKind, Seq<char>)>(Kind::Keyed(mk, KeyKind::Bool, Box::new(vk)))
                &&& ends_with_ident(key, "i32"@) ==> kind_of(ty) == Ok::<Kind, (DeriveErrorKind, Seq<char>)>(Kind::Keyed(mk, KeyKind::I32, Box::new(vk)))
                &&& ends_with_ident(key, "i64"@) ==> kind_of(ty) == Ok::<Kind, (DeriveErrorKind, Seq<char>)>(Kind::Keyed(mk, KeyKind::I64, Box::new(vk)))
                &&& ends_with_ident(key, "u32"@) ==> kind_of(ty) == Ok::<Kind, (DeriveErrorKind, Seq<char>)>(Kind::Keyed(mk, KeyKind::U32, Box::new(vk)))
                &&& ends_with_ident(key, "u64"@) ==> kind_of(ty) == Ok::<Kind, (DeriveErrorKind, Seq<char>)>(Kind::Keyed(mk, KeyKind::U64, Box::new(vk)))
            }
            &&& !(ends_with_ident(key, "String"@) || ends_with_ident(key, "bool"@) || ends_with_ident(key, "i32"@)
                || ends_with_ident(key, "i64"@) || ends_with_ident(key, "u32"@) || ends_with_ident(key, "u64"@))
                ==> kind_of(ty) == Err::<Kind, (DeriveErrorKind, Seq<char>)>(plain(DeriveErrorKind::UnsupportedMapKey))
        },
{
    reveal_strlit("String");
    reveal_strlit("bool");
    reveal_strlit("i32");
    reveal_strlit("i64");
    reveal_strlit("u32");
    reveal_strlit("u64");
    reveal_strlit("Option");
    reveal_strlit("Vec");
    reveal_strlit("HashMap");
    reveal_strlit("BTreeMap");
    if let Some((mk, key, value)) = map_types(ty) {
        let id = last_seg(ty)->Some_0.ident@;
        assert(id == "HashMap"@ || id == "BTreeMap"@);
        assert(id[0] != 'O' && id[0] != 'V');
        assert("Option"@[0] == 'O' && "Vec"@[0] == 'V');
        assert(generic_arg(ty, "Option"@, 0) is None);
        assert(generic_arg(ty, "Vec"@, 0) is None);
        assert("String"@[0] == 'S' && "bool"@[0] == 'b' && "i32"@[0] == 'i' && "i64"@[0] == 'i');
        assert("u32"@[0] == 'u' && "u64"@[0] == 'u');
        assert("i32"@[1] == '3' && "i64"@[1] == '6' && "u32"@[1] == '3' && "u64"@[1] == '6');
    }
}

} // verus!
