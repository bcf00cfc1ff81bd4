//! For each field, the form of the code that the derive writes for it:
//! how its value is wrapped, when it is written out, how it is initialised,
//! counted and read back.
use vstd::prelude::*;
use crate::error::{err_view, plain, DeriveError, DeriveErrorKind};
use crate::attrs::{ContainerDefault, DefaultView};
use crate::field::FieldInfo;
use crate::types::{is_prost_value_type, prost_value_type, Kind, MapKind, ScalarKind, TypeRepr};

verus! {

/// How a value is handed to the serializer.
#[derive(Clone, Copy, Debug, PartialEq, Eq, Structural)]
pub enum ValueWrap {
    /// `CanonicalEnum::<Path>::new(*value)`: an enumeration by its name.
    Enumeration,
    /// `Canonical::new(value)`.
    Plain,
}

/// What `serialize_value_wrap` gives: enumerations are written by name, everything else
/// through `Canonical`.
pub open spec fn wrap_of(kind: Kind) -> ValueWrap {
    if kind is Enumeration { ValueWrap::Enumeration } else { ValueWrap::Plain }
}

pub fn serialize_value_wrap(kind: &Kind) -> (r: ValueWrap)
    ensures
        r == wrap_of(*kind),
{
    match kind {
        Kind::Enumeration => ValueWrap::Enumeration,
        _ => ValueWrap::Plain,
    }
}

/// The test that a singular field differs from its protobuf default, so
/// that it is written out.
#[derive(Clone, Copy, Debug, PartialEq, Eq, Structural)]
pub enum DefaultCheck {
    /// `field` (a `bool` is written when true).
    IsTrue,
    /// `field != 0`.
    NonZero,
    /// `field != 0.0`.
    NonZeroFloat,
    /// `!field.is_empty()`.
    NonEmpty,
    /// Always written.
    Always,
    /// `field.is_some()`.
    IsSome,
}

/// What `default_check` gives: the test that a value differs from the protobuf default of its kind (a value equal to the default is left out).
pub open spec fn check_of(kind: Kind) -> DefaultCheck {
    match kind {
        Kind::Scalar(ScalarKind::Bool) => DefaultCheck::IsTrue,
        Kind::Scalar(ScalarKind::I32) | Kind::Scalar(ScalarKind::U32) | Kind::Scalar(ScalarKind::I64)
        | Kind::Scalar(ScalarKind::U64) | Kind::Enumeration => DefaultCheck::NonZero,
        Kind::Scalar(ScalarKind::F32) | Kind::Scalar(ScalarKind::F64) => DefaultCheck::NonZeroFloat,
        Kind::Scalar(ScalarKind::Text) | Kind::Bytes | Kind::Repeated(_) | Kind::Keyed(_, _, _) => DefaultCheck::NonEmpty,
        Kind::Timestamp | Kind::Duration | Kind::Message => DefaultCheck::Always,
        Kind::Optional(_) => DefaultCheck::IsSome,
    }
}

pub fn default_check(kind: &Kind) -> (r: DefaultCheck)
    ensures
        r == check_of(*kind),
{
    match kind {
        Kind::Scalar(ScalarKind::Bool) => DefaultCheck::IsTrue,
        Kind::Scalar(ScalarKind::I32) | Kind::Scalar(ScalarKind::U32) | Kind::Scalar(ScalarKind::I64)
        | Kind::Scalar(ScalarKind::U64) | Kind::Enumeration => DefaultCheck::NonZero,
        Kind::Scalar(ScalarKind::F32) | Kind::Scalar(ScalarKind::F64) => DefaultCheck::NonZeroFloat,
        Kind::Scalar(ScalarKind::Text) | Kind::Bytes | Kind::Repeated(_) | Kind::Keyed(_, _, _) => DefaultCheck::NonEmpty,
        Kind::Timestamp | Kind::Duration | Kind::Message => DefaultCheck::Always,
        Kind::Optional(_) => DefaultCheck::IsSome,
    }
}

/// The value a field starts from before the input is read.
#[derive(Clone, Copy, Debug, PartialEq, Eq, Structural)]
pub enum DefaultValue {
    False,
    Zero,
    ZeroFloat,
    EmptyString,
    EmptyVec,
    EmptyMap(MapKind),
    TimestampDefault,
    DurationDefault,
    TypeDefault,
    Nothing,
}

/// What `default_value` gives: the protobuf default of each kind.
pub open spec fn default_of(kind: Kind) -> DefaultValue {
    match kind {
        Kind::Scalar(ScalarKind::Bool) => DefaultValue::False,
        Kind::Scalar(ScalarKind::I32) | Kind::Scalar(ScalarKind::U32) | Kind::Scalar(ScalarKind::I64)
        | Kind::Scalar(ScalarKind::U64) | Kind::Enumeration => DefaultValue::Zero,
        Kind::Scalar(ScalarKind::F32) | Kind::Scalar(ScalarKind::F64) => DefaultValue::ZeroFloat,
        Kind::Scalar(ScalarKind::Text) => DefaultValue::EmptyString,
        Kind::Bytes | Kind::Repeated(_) => DefaultValue::EmptyVec,
        Kind::Keyed(mk, _, _) => DefaultValue::EmptyMap(mk),
        Kind::Timestamp => DefaultValue::TimestampDefault,
        Kind::Duration => DefaultValue::DurationDefault,
        Kind::Message => DefaultValue::TypeDefault,
        Kind::Optional(_) => DefaultValue::Nothing,
    }
}

pub fn default_value(kind: &Kind) -> (r: DefaultValue)
    ensures
        r == default_of(*kind),
{
    match kind {
        Kind::Scalar(ScalarKind::Bool) => DefaultValue::False,
        Kind::Scalar(ScalarKind::I32) | Kind::Scalar(ScalarKind::U32) | Kind::Scalar(ScalarKind::I64)
        | Kind::Scalar(ScalarKind::U64) | Kind::Enumeration => DefaultValue::Zero,
        Kind::Scalar(ScalarKind::F32) | Kind::Scalar(ScalarKind::F64) => DefaultValue::ZeroFloat,
        Kind::Scalar(ScalarKind::Text) => DefaultValue::EmptyString,
        Kind::Bytes | Kind::Repeated(_) => DefaultValue::EmptyVec,
        Kind::Keyed(mk, _, _) => DefaultValue::EmptyMap(*mk),
        Kind::Timestamp => DefaultValue::TimestampDefault,
        Kind::Duration => DefaultValue::DurationDefault,
        Kind::Message => DefaultValue::TypeDefault,
        Kind::Optional(_) => DefaultValue::Nothing,
    }
}

/// How one field of a message object is written out.
#[derive(Clone, Copy, Debug, PartialEq, Eq, Structural)]
pub enum SerializeFieldPlan {
    /// The nested message's fields go into this object; `optional` when the
    /// field is an `Option<Message>` (nothing is written for `None`).
    Flatten { optional: bool },
    /// The set oneof variant, if any, writes its own entry.
    Oneof,
    /// Written when `Some`, its value wrapped by `wrap`.
    Optional { wrap: ValueWrap },
    /// Written when not empty; `enums` when the items are enumerations.
    Repeated { enums: bool },
    /// Written when not empty; `enums` when the values are enumerations.
    Keyed { enums: bool },
    /// Written when `check` passes, wrapped by `wrap`.
    Single { check: DefaultCheck, wrap: ValueWrap },
}

/// `serialize_field`: the form of a field's entry.
pub open spec fn serialize_plan_of(kind: Kind, is_flatten: bool, is_oneof: bool) -> SerializeFieldPlan {
    if is_flatten {
        SerializeFieldPlan::Flatten { optional: kind matches Kind::Optional(inner) && *inner is Message }
    } else if is_oneof {
        SerializeFieldPlan::Oneof
    } else {
        match kind {
            Kind::Optional(inner) => SerializeFieldPlan::Optional { wrap: wrap_of(*inner) },
            Kind::Repeated(inner) => SerializeFieldPlan::Repeated { enums: *inner is Enumeration },
            Kind::Keyed(_, _, value) => SerializeFieldPlan::Keyed { enums: *value is Enumeration },
            _ => SerializeFieldPlan::Single { check: check_of(kind), wrap: wrap_of(kind) },
        }
    }
}

pub fn serialize_field(field: &FieldInfo) -> (r: SerializeFieldPlan)
    ensures
        r == serialize_plan_of(field.kind, field.is_flatten, field.is_oneof),
{
    if field.is_flatten {
        return SerializeFieldPlan::Flatten { optional: field.is_option_message() };
    }
    if field.is_oneof {
        return SerializeFieldPlan::Oneof;
    }
    match &field.kind {
        Kind::Optional(inner) => SerializeFieldPlan::Optional { wrap: serialize_value_wrap(inner) },
        Kind::Repeated(inner) => SerializeFieldPlan::Repeated { enums: matches!(**inner, Kind::Enumeration) },
        Kind::Keyed(_, _, value) => SerializeFieldPlan::Keyed { enums: matches!(**value, Kind::Enumeration) },
        _ => SerializeFieldPlan::Single { check: default_check(&field.kind), wrap: serialize_value_wrap(&field.kind) },
    }
}

/// How the single field of a transparent struct is written (always, as a
/// newtype).
#[derive(Clone, Copy, Debug, PartialEq, Eq, Structural)]
pub enum TransparentSerializePlan {
    /// The value when `Some`, else unit.
    Optional { wrap: ValueWrap },
    Repeated { enums: bool },
    Keyed { enums: bool },
    Single { wrap: ValueWrap },
}

/// `serialize_transparent_field`.
pub open spec fn transparent_serialize_of(kind: Kind) -> TransparentSerializePlan {
    match kind {
        Kind::Optional(inner) => TransparentSerializePlan::Optional { wrap: wrap_of(*inner) },
        Kind::Repeated(inner) => TransparentSerializePlan::Repeated { enums: *inner is Enumeration },
        Kind::Keyed(_, _, value) => TransparentSerializePlan::Keyed { enums: *value is Enumeration },
        _ => TransparentSerializePlan::Single { wrap: wrap_of(kind) },
    }
}

pub fn serialize_transparent_field(field: &FieldInfo) -> (r: TransparentSerializePlan)
    ensures
        r == transparent_serialize_of(field.kind),
{
    match &field.kind {
        Kind::Optional(inner) => TransparentSerializePlan::Optional { wrap: serialize_value_wrap(inner) },
        Kind::Repeated(inner) => TransparentSerializePlan::Repeated { enums: matches!(**inner, Kind::Enumeration) },
        Kind::Keyed(_, _, value) => TransparentSerializePlan::Keyed { enums: matches!(**value, Kind::Enumeration) },
        _ => TransparentSerializePlan::Single { wrap: serialize_value_wrap(&field.kind) },
    }
}

/// How a field's variable starts before the input is read.
#[derive(Clone, Copy, Debug, PartialEq, Eq, Structural)]
pub enum InitPlan {
    /// From the container's default value.
    ContainerDefault,
    /// From the protobuf default of its kind.
    Value(DefaultValue),
    /// From `Default::default()` of the field's type (`default` on the field).
    TypeDefault,
    /// From the function that the field's `default = "path"` names.
    FieldPath,
}

/// `init_field`: the field's own default when it sets one (a path, else
/// `Default::default()`); else, for a field that is never read, the
/// protobuf default (the container's default is not used for it); else the
/// container's default when it has one; else `None` for oneofs and the
/// protobuf default of the kind.
pub open spec fn init_plan_of(kind: Kind, is_oneof: bool, has_container_default: bool, field_default: DefaultView, skip_deserializing: bool) -> InitPlan {
    if field_default is Path {
        InitPlan::FieldPath
    } else if field_default is Default {
        InitPlan::TypeDefault
    } else if has_container_default && !skip_deserializing {
        InitPlan::ContainerDefault
    } else if is_oneof {
        InitPlan::Value(DefaultValue::Nothing)
    } else {
        InitPlan::Value(default_of(kind))
    }
}

pub fn init_field(field: &FieldInfo, has_container_default: bool) -> (r: InitPlan)
    ensures
        r == init_plan_of(field.kind, field.is_oneof, has_container_default, field.default@, field.skip_deserializing),
{
    match &field.default {
        ContainerDefault::Path(_) => { return InitPlan::FieldPath; },
        ContainerDefault::Default => { return InitPlan::TypeDefault; },
        ContainerDefault::Unset => {},
    }
    if has_container_default && !field.skip_deserializing {
        return InitPlan::ContainerDefault;
    }
    if field.is_oneof {
        return InitPlan::Value(DefaultValue::Nothing);
    }
    InitPlan::Value(default_value(&field.kind))
}

/// When a field adds to the entry count of a struct serializer.
#[derive(Clone, Copy, Debug, PartialEq, Eq, Structural)]
pub enum CountRule {
    IfSome,
    IfNonEmpty,
    IfNotDefault(DefaultCheck),
}

/// What `serialized_field_count` gives: a field counts exactly when its entry is written.
pub open spec fn count_rule_of(kind: Kind, is_oneof: bool) -> CountRule {
    if is_oneof || kind is Optional {
        CountRule::IfSome
    } else if kind is Repeated || kind is Keyed {
        CountRule::IfNonEmpty
    } else {
        CountRule::IfNotDefault(check_of(kind))
    }
}

pub fn serialized_field_count(field: &FieldInfo) -> (r: CountRule)
    ensures
        r == count_rule_of(field.kind, field.is_oneof),
{
    if field.is_oneof || matches!(field.kind, Kind::Optional(_)) {
        return CountRule::IfSome;
    }
    match &field.kind {
        Kind::Repeated(_) | Kind::Keyed(_, _, _) => CountRule::IfNonEmpty,
        _ => CountRule::IfNotDefault(default_check(&field.kind)),
    }
}

/// How a field's value is read back from an entry.
#[derive(Clone, Copy, Debug, PartialEq, Eq, Structural)]
pub enum ReadPlan {
    /// A `prost_types::Value` (`null` is a value): `Some(CanonicalValue<T>)`.
    OptionalProstValue,
    /// `CanonicalEnumOption<Path>` into an optional enumeration.
    OptionalEnumeration,
    /// `CanonicalOption<T>` into an optional value.
    OptionalValue,
    /// `CanonicalEnumVec<Path>`.
    RepeatedEnumeration,
    /// `CanonicalVec<T>`.
    RepeatedValue,
    /// `CanonicalEnumMap<Path, Map>`.
    KeyedEnumeration,
    /// `CanonicalMap<Map>`.
    KeyedValue,
    /// `CanonicalEnumOption<Path>`, kept only when present (`null` leaves the default).
    EnumerationIfPresent,
    /// `CanonicalOption<T>`, kept only when present.
    ValueIfPresent,
}

/// What `deserialize_read` gives: how an entry's value is read into a field.
pub open spec fn read_plan_of(kind: Kind, option_inner: Option<TypeRepr>, vec_inner: Option<TypeRepr>) -> Result<ReadPlan, (DeriveErrorKind, Seq<char>)> {
    match kind {
        Kind::Optional(inner) => match option_inner {
            None => Err(plain(DeriveErrorKind::MissingOptionInner)),
            Some(t) => if prost_value_type(t) {
                Ok(ReadPlan::OptionalProstValue)
            } else if *inner is Enumeration {
                Ok(ReadPlan::OptionalEnumeration)
            } else {
                Ok(ReadPlan::OptionalValue)
            },
        },
        Kind::Repeated(inner) => if *inner is Enumeration {
            Ok(ReadPlan::RepeatedEnumeration)
        } else if vec_inner is None {
            Err(plain(DeriveErrorKind::MissingVecInner))
        } else {
            Ok(ReadPlan::RepeatedValue)
        },
        Kind::Keyed(_, _, value) => if *value is Enumeration {
            Ok(ReadPlan::KeyedEnumeration)
        } else {
            Ok(ReadPlan::KeyedValue)
        },
        Kind::Enumeration => Ok(ReadPlan::EnumerationIfPresent),
        _ => Ok(ReadPlan::ValueIfPresent),
    }
}

/// Reads a field's entry value.
pub fn deserialize_read(field: &FieldInfo) -> (r: Result<ReadPlan, DeriveError>)
    ensures
        match r {
            Ok(p) => read_plan_of(field@.kind, field@.option_inner, field@.vec_inner) == Ok::<ReadPlan, (DeriveErrorKind, Seq<char>)>(p),
            Err(e) => read_plan_of(field@.kind, field@.option_inner, field@.vec_inner) == Err::<ReadPlan, _>(err_view(e)),
        },
{
    match &field.kind {
        Kind::Optional(inner) => match field.option_inner {
            None => Err(DeriveError::new(DeriveErrorKind::MissingOptionInner)),
            Some(t) => if is_prost_value_type(t) {
                Ok(ReadPlan::OptionalProstValue)
            } else if matches!(**inner, Kind::Enumeration) {
                Ok(ReadPlan::OptionalEnumeration)
            } else {
                Ok(ReadPlan::OptionalValue)
            },
        },
        Kind::Repeated(inner) => if matches!(**inner, Kind::Enumeration) {
            Ok(ReadPlan::RepeatedEnumeration)
        } else if field.vec_inner.is_none() {
            Err(DeriveError::new(DeriveErrorKind::MissingVecInner))
        } else {
            Ok(ReadPlan::RepeatedValue)
        },
        Kind::Keyed(_, _, value) => if matches!(**value, Kind::Enumeration) {
            Ok(ReadPlan::KeyedEnumeration)
        } else {
            Ok(ReadPlan::KeyedValue)
        },
        Kind::Enumeration => Ok(ReadPlan::EnumerationIfPresent),
        _ => Ok(ReadPlan::ValueIfPresent),
    }
}

/// How the single field of a transparent struct is read (the whole input is
/// the value).
#[derive(Clone, Copy, Debug, PartialEq, Eq, Structural)]
pub enum TransparentReadPlan {
    OptionalEnumeration,
    OptionalValue,
    RepeatedEnumeration,
    RepeatedValue,
    KeyedEnumeration,
    KeyedValue,
    Enumeration,
    Value,
}

/// `deserialize_transparent_field`.
pub open spec fn transparent_read_of(kind: Kind, option_inner: Option<TypeRepr>, vec_inner: Option<TypeRepr>) -> Result<TransparentReadPlan, (DeriveErrorKind, Seq<char>)> {
    match kind {
        Kind::Optional(inner) => if option_inner is None {
            Err(plain(DeriveErrorKind::MissingOptionInner))
        } else if *inner is Enumeration {
            Ok(TransparentReadPlan::OptionalEnumeration)
        } else {
            Ok(TransparentReadPlan::OptionalValue)
        },
        Kind::Repeated(inner) => if *inner is Enumeration {
            Ok(TransparentReadPlan::RepeatedEnumeration)
        } else if vec_inner is None {
            Err(plain(DeriveErrorKind::MissingVecInner))
        } else {
            Ok(TransparentReadPlan::RepeatedValue)
        },
        Kind::Keyed(_, _, value) => if *value is Enumeration {
            Ok(TransparentReadPlan::KeyedEnumeration)
        } else {
            Ok(TransparentReadPlan::KeyedValue)
        },
        Kind::Enumeration => Ok(TransparentReadPlan::Enumeration),
        _ => Ok(TransparentReadPlan::Value),
    }
}

pub fn deserialize_transparent_field(field: &FieldInfo) -> (r: Result<TransparentReadPlan, DeriveError>)
    ensures
        match r {
            Ok(p) => transparent_read_of(field@.kind, field@.option_inner, field@.vec_inner) == Ok::<TransparentReadPlan, (DeriveErrorKind, Seq<char>)>(p),
            Err(e) => transparent_read_of(field@.kind, field@.option_inner, field@.vec_inner) == Err::<TransparentReadPlan, _>(err_view(e)),
        },
{
    match &field.kind {
        Kind::Optional(inner) => if field.option_inner.is_none() {
            Err(DeriveError::new(DeriveErrorKind::MissingOptionInner))
        } else if matches!(**inner, Kind::Enumeration) {
            Ok(TransparentReadPlan::OptionalEnumeration)
        } else {
            Ok(TransparentReadPlan::OptionalValue)
        },
        Kind::Repeated(inner) => if matches!(**inner, Kind::Enumeration) {
            Ok(TransparentReadPlan::RepeatedEnumeration)
        } else if field.vec_inner.is_none() {
            Err(DeriveError::new(DeriveErrorKind::MissingVecInner))
        } else {
            Ok(TransparentReadPlan::RepeatedValue)
        },
        Kind::Keyed(_, _, value) => if matches!(**value, Kind::Enumeration) {
            Ok(TransparentReadPlan::KeyedEnumeration)
        } else {
            Ok(TransparentReadPlan::KeyedValue)
        },
        Kind::Enumeration => Ok(TransparentReadPlan::Enumeration),
        _ => Ok(TransparentReadPlan::Value),
    }
}

} // verus!
