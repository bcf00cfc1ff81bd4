//! Rust types as plain values, and the protobuf kind of each field type.
use vstd::prelude::*;
use crate::error::{err_view, plain, DeriveError, DeriveErrorKind};
use crate::text::str_eq;

verus! {

/// A Rust type as the derive reads it. `id` tells the caller which type
/// node of its own input this is, so that it can write that type back.
pub struct TypeRepr {
    pub id: usize,
    pub shape: TypeShape,
}

/// The forms of a type that the derive tells apart.
pub enum TypeShape {
    /// A path type such as `Option<i32>` or `::prost_types::Timestamp`.
    Path(Vec<PathSegment>),
    /// Any other type (tuple, reference, array, ...).
    Other,
}

/// One segment of a path type.
pub struct PathSegment {
    pub ident: String,
    pub args: PathArgs,
}

/// The arguments of a path segment.
pub enum PathArgs {
    /// No arguments.
    Plain,
    /// `<...>` arguments.
    Angle(Vec<GenericArg>),
    /// `(...)` arguments, as in `Fn(A) -> B`.
    Paren,
}

/// One argument in `<...>`.
pub enum GenericArg {
    Type(TypeRepr),
    /// A lifetime, constant or binding.
    Other,
}

/// The last segment of a path type.
pub open spec fn last_seg(ty: TypeRepr) -> Option<PathSegment> {
    match ty.shape {
        TypeShape::Path(segs) => if segs.len() > 0 { Some(segs@.last()) } else { None },
        TypeShape::Other => None,
    }
}

/// The type in position `index` of the `<...>` arguments of the last
/// segment, when that segment is named `name`.
pub open spec fn generic_arg(ty: TypeRepr, name: Seq<char>, index: int) -> Option<TypeRepr> {
    match last_seg(ty) {
        Some(seg) => if seg.ident@ != name {
            None
        } else {
            match seg.args {
                PathArgs::Angle(args) => if 0 <= index < args.len() {
                    match args@[index] {
                        GenericArg::Type(t) => Some(t),
                        GenericArg::Other => None,
                    }
                } else {
                    None
                },
                _ => None,
            }
        },
        None => None,
    }
}

pub proof fn lemma_generic_arg_smaller(ty: TypeRepr, name: Seq<char>, index: int)
    ensures
        generic_arg(ty, name, index) matches Some(t) ==> decreases_to!(ty => t),
{
    if let Some(t) = generic_arg(ty, name, index) {
        if let TypeShape::Path(segs) = ty.shape {
            let seg = segs@.last();
            if let PathArgs::Angle(args) = seg.args {
                assert(decreases_to!(ty => ty.shape));
                assert(decreases_to!(segs => segs@));
                assert(decreases_to!(segs@ => segs@[segs@.len() - 1]));
                assert(decreases_to!(seg => seg.args));
                assert(decreases_to!(args => args@));
                assert(decreases_to!(args@ => args@[index]));
                if let GenericArg::Type(inner) = args@[index] {
                    assert(decreases_to!(args@[index] => inner));
                }
            }
        }
    }
}

/// The last segment's identifier is `ident`.
pub open spec fn ends_with_ident(ty: TypeRepr, ident: Seq<char>) -> bool {
    match last_seg(ty) {
        Some(seg) => seg.ident@ == ident,
        None => false,
    }
}

/// The path type's last segments are `idents`, in order.
pub open spec fn ends_with_idents(ty: TypeRepr, idents: Seq<Seq<char>>) -> bool {
    match ty.shape {
        TypeShape::Path(segs) => {
            &&& segs.len() >= idents.len()
            &&& forall|i: int| 0 <= i < idents.len() ==> #[trigger] segs@[segs.len() - idents.len() + i].ident@ == idents[i]
        },
        TypeShape::Other => false,
    }
}

/// The map kinds of protobuf map fields.
#[derive(Clone, Copy, Debug, PartialEq, Eq, Structural)]
pub enum MapKind {
    Hash,
    BTree,
}

/// The scalar kinds of protobuf fields.
#[derive(Clone, Copy, Debug, PartialEq, Eq, Structural)]
pub enum ScalarKind {
    Bool,
    I32,
    U32,
    I64,
    U64,
    F32,
    F64,
    Text,
}

/// The kinds of map keys.
#[derive(Clone, Copy, Debug, PartialEq, Eq, Structural)]
pub enum KeyKind {
    Text,
    Bool,
    I32,
    I64,
    U32,
    U64,
}

/// The protobuf kind of a field type. An enumeration's path is kept beside
/// the kind, in the field.
pub enum Kind {
    Scalar(ScalarKind),
    Bytes,
    Repeated(Box<Kind>),
    Keyed(MapKind, KeyKind, Box<Kind>),
    Optional(Box<Kind>),
    Enumeration,
    Timestamp,
    Duration,
    Message,
}

/// `HashMap<K, V>` or `BTreeMap<K, V>` with two type arguments: the map
/// kind and the key and value types.
pub open spec fn map_types(ty: TypeRepr) -> Option<(MapKind, TypeRepr, TypeRepr)> {
    match last_seg(ty) {
        Some(seg) => {
            let kind = if seg.ident@ == "HashMap"@ {
                Some(MapKind::Hash)
            } else if seg.ident@ == "BTreeMap"@ {
                Some(MapKind::BTree)
            } else {
                None
            };
            match kind {
                None => None,
                Some(mk) => match seg.args {
                    PathArgs::Angle(args) => if args.len() >= 2 {
                        match (args@[0], args@[1]) {
                            (GenericArg::Type(k), GenericArg::Type(v)) => Some((mk, k, v)),
                            _ => None,
                        }
                    } else {
                        None
                    },
                    _ => None,
                },
            }
        },
        None => None,
    }
}

pub proof fn lemma_map_types_smaller(ty: TypeRepr)
    ensures
        map_types(ty) matches Some((mk, k, v)) ==> decreases_to!(ty => v),
{
    if let Some((mk, k, v)) = map_types(ty) {
        if let TypeShape::Path(segs) = ty.shape {
            let seg = segs@.last();
            if let PathArgs::Angle(args) = seg.args {
                assert(decreases_to!(ty => ty.shape));
                assert(decreases_to!(segs => segs@));
                assert(decreases_to!(segs@ => segs@[segs@.len() - 1]));
                assert(decreases_to!(seg => seg.args));
                assert(decreases_to!(args => args@));
                assert(decreases_to!(args@ => args@[1]));
                if let GenericArg::Type(inner) = args@[1] {
                    assert(decreases_to!(args@[1] => inner));
                }
            }
        }
    }
}

/// The scalar kind that a type's last segment names, if any.
pub open spec fn scalar_of(ty: TypeRepr) -> Option<ScalarKind> {
    if ends_with_ident(ty, "bool"@) {
        Some(ScalarKind::Bool)
    } else if ends_with_ident(ty, "i32"@) {
        Some(ScalarKind::I32)
    } else if ends_with_ident(ty, "u32"@) {
        Some(ScalarKind::U32)
    } else if ends_with_ident(ty, "i64"@) {
        Some(ScalarKind::I64)
    } else if ends_with_ident(ty, "u64"@) {
        Some(ScalarKind::U64)
    } else if ends_with_ident(ty, "f32"@) {
        Some(ScalarKind::F32)
    } else if ends_with_ident(ty, "f64"@) {
        Some(ScalarKind::F64)
    } else if ends_with_ident(ty, "String"@) {
        Some(ScalarKind::Text)
    } else {
        None
    }
}

/// The kind of a map key type; only strings, `bool` and the integer types
/// are keys.
pub open spec fn key_kind_of(ty: TypeRepr) -> Result<KeyKind, (DeriveErrorKind, Seq<char>)> {
    if ends_with_ident(ty, "String"@) {
        Ok(KeyKind::Text)
    } else if ends_with_ident(ty, "bool"@) {
        Ok(KeyKind::Bool)
    } else if ends_with_ident(ty, "i32"@) {
        Ok(KeyKind::I32)
    } else if ends_with_ident(ty, "i64"@) {
        Ok(KeyKind::I64)
    } else if ends_with_ident(ty, "u32"@) {
        Ok(KeyKind::U32)
    } else if ends_with_ident(ty, "u64"@) {
        Ok(KeyKind::U64)
    } else {
        Err(plain(DeriveErrorKind::UnsupportedMapKey))
    }
}

/// The protobuf kind of a field type: `Option<T>`, `Vec<u8>` (bytes),
/// `Vec<T>`, `HashMap`/`BTreeMap`, the scalars, `prost_types::Timestamp`
/// and `prost_types::Duration`; any other type is a message.
pub open spec fn kind_of(ty: TypeRepr) -> Result<Kind, (DeriveErrorKind, Seq<char>)>
    decreases ty,
{
    proof {
        lemma_generic_arg_smaller(ty, "Option"@, 0);
        lemma_generic_arg_smaller(ty, "Vec"@, 0);
        lemma_map_types_smaller(ty);
    }
    if let Some(inner) = generic_arg(ty, "Option"@, 0) {
        match kind_of(inner) {
            Ok(k) => Ok(Kind::Optional(Box::new(k))),
            Err(e) => Err(e),
        }
    } else if let Some(inner) = generic_arg(ty, "Vec"@, 0) {
        if ends_with_ident(inner, "u8"@) {
            Ok(Kind::Bytes)
        } else {
            match kind_of(inner) {
                Ok(k) => Ok(Kind::Repeated(Box::new(k))),
                Err(e) => Err(e),
            }
        }
    } else if let Some((mk, key, value)) = map_types(ty) {
        match key_kind_of(key) {
            Ok(kk) => match kind_of(value) {
                Ok(vk) => Ok(Kind::Keyed(mk, kk, Box::new(vk))),
                Err(e) => Err(e),
            },
            Err(e) => Err(e),
        }
    } else if let Some(sk) = scalar_of(ty) {
        Ok(Kind::Scalar(sk))
    } else if ends_with_idents(ty, seq!["prost_types"@, "Timestamp"@]) {
        Ok(Kind::Timestamp)
    } else if ends_with_idents(ty, seq!["prost_types"@, "Duration"@]) {
        Ok(Kind::Duration)
    } else {
        Ok(Kind::Message)
    }
}

/// `extract_generic`: the type in position `index` of the `<...>` arguments
/// of the last segment, when that segment is named `name`.
pub fn extract_generic<'a>(ty: &'a TypeRepr, name: &str, index: usize) -> (r: Option<&'a TypeRepr>)
    ensures
        match r {
            Some(t) => generic_arg(*ty, name@, index as int) == Some(*t),
            None => generic_arg(*ty, name@, index as int) is None,
        },
{
    let segs = match &ty.shape {
        TypeShape::Path(segs) => segs,
        TypeShape::Other => { return None; },
    };
    if segs.len() == 0 {
        return None;
    }
    let seg = &segs[segs.len() - 1];
    if !str_eq(seg.ident.as_str(), name) {
        return None;
    }
    let args = match &seg.args {
        PathArgs::Angle(args) => args,
        _ => { return None; },
    };
    if index >= args.len() {
        return None;
    }
    match &args[index] {
        GenericArg::Type(t) => Some(t),
        GenericArg::Other => None,
    }
}

/// `extract_map_types`: the map kind and the key and value types of a
/// `HashMap<K, V>` or `BTreeMap<K, V>`.
pub fn extract_map_types<'a>(ty: &'a TypeRepr) -> (r: Option<(MapKind, &'a TypeRepr, &'a TypeRepr)>)
    ensures
        match r {
            Some((mk, k, v)) => map_types(*ty) == Some((mk, *k, *v)),
            None => map_types(*ty) is None,
        },
{
    let segs = match &ty.shape {
        TypeShape::Path(segs) => segs,
        TypeShape::Other => { return None; },
    };
    if segs.len() == 0 {
        return None;
    }
    let seg = &segs[segs.len() - 1];
    let map_kind = if str_eq(seg.ident.as_str(), "HashMap") {
        MapKind::Hash
    } else if str_eq(seg.ident.as_str(), "BTreeMap") {
        MapKind::BTree
    } else {
        return None;
    };
    let args = match &seg.args {
        PathArgs::Angle(args) => args,
        _ => { return None; },
    };
    if args.len() < 2 {
        return None;
    }
    match (&args[0], &args[1]) {
        (GenericArg::Type(k), GenericArg::Type(v)) => Some((map_kind, k, v)),
        _ => None,
    }
}

/// Whether the last segment of the path type is `ident`.
pub fn path_ends_with_ident(ty: &TypeRepr, ident: &str) -> (r: bool)
    ensures
        r == ends_with_ident(*ty, ident@),
{
    match &ty.shape {
        TypeShape::Path(segs) => {
            if segs.len() == 0 {
                false
            } else {
                str_eq(segs[segs.len() - 1].ident.as_str(), ident)
            }
        },
        TypeShape::Other => false,
    }
}

/// Whether the last two segments of the path type are `first` and `second`.
pub fn path_ends_with(ty: &TypeRepr, first: &str, second: &str) -> (r: bool)
    ensures
        r == ends_with_idents(*ty, seq![first@, second@]),
{
    match &ty.shape {
        TypeShape::Path(segs) => {
            if segs.len() < 2 {
                return false;
            }
            let n = segs.len();
            let a = str_eq(segs[n - 2].ident.as_str(), first);
            let b = str_eq(segs[n - 1].ident.as_str(), second);
            proof {
                let idents = seq![first@, second@];
                if a && b {
                    assert forall|i: int| 0 <= i < idents.len() implies #[trigger] segs@[segs.len() - idents.len() + i].ident@ == idents[i] by {
                        if i == 0 {
                        } else {
                        }
                    }
                } else if !a {
                    assert(segs@[segs.len() - idents.len() + 0].ident@ != idents[0]);
                } else {
                    assert(segs@[segs.len() - idents.len() + 1].ident@ != idents[1]);
                }
            }
            a && b
        },
        TypeShape::Other => false,
    }
}

/// The scalar kind that a type's last segment names, if any.
pub fn scalar_kind(ty: &TypeRepr) -> (r: Option<ScalarKind>)
    ensures
        r == scalar_of(*ty),
{
    if path_ends_with_ident(ty, "bool") {
        Some(ScalarKind::Bool)
    } else if path_ends_with_ident(ty, "i32") {
        Some(ScalarKind::I32)
    } else if path_ends_with_ident(ty, "u32") {
        Some(ScalarKind::U32)
    } else if path_ends_with_ident(ty, "i64") {
        Some(ScalarKind::I64)
    } else if path_ends_with_ident(ty, "u64") {
        Some(ScalarKind::U64)
    } else if path_ends_with_ident(ty, "f32") {
        Some(ScalarKind::F32)
    } else if path_ends_with_ident(ty, "f64") {
        Some(ScalarKind::F64)
    } else if path_ends_with_ident(ty, "String") {
        Some(ScalarKind::Text)
    } else {
        None
    }
}

/// The kind of a map key type.
pub fn classify_key(ty: &TypeRepr) -> (r: Result<KeyKind, DeriveError>)
    ensures
        match r {
            Ok(k) => key_kind_of(*ty) == Ok::<KeyKind, (DeriveErrorKind, Seq<char>)>(k),
            Err(e) => key_kind_of(*ty) == Err::<KeyKind, _>(err_view(e)),
        },
{
    if path_ends_with_ident(ty, "String") {
        Ok(KeyKind::Text)
    } else if path_ends_with_ident(ty, "bool") {
        Ok(KeyKind::Bool)
    } else if path_ends_with_ident(ty, "i32") {
        Ok(KeyKind::I32)
    } else if path_ends_with_ident(ty, "i64") {
        Ok(KeyKind::I64)
    } else if path_ends_with_ident(ty, "u32") {
        Ok(KeyKind::U32)
    } else if path_ends_with_ident(ty, "u64") {
        Ok(KeyKind::U64)
    } else {
        Err(DeriveError::new(DeriveErrorKind::UnsupportedMapKey))
    }
}

/// The protobuf kind of a field type.
pub fn classify_type(ty: &TypeRepr) -> (r: Result<Kind, DeriveError>)
    ensures
        match r {
            Ok(k) => kind_of(*ty) == Ok::<Kind, (DeriveErrorKind, Seq<char>)>(k),
            Err(e) => kind_of(*ty) == Err::<Kind, _>(err_view(e)),
        },
    decreases ty,
{
    proof {
        reveal_strlit("Option");
        reveal_strlit("Vec");
    }
    if let Some(inner) = extract_generic(ty, "Option", 0) {
        proof { lemma_generic_arg_smaller(*ty, "Option"@, 0); }
        return match classify_type(inner) {
            Ok(k) => Ok(Kind::Optional(Box::new(k))),
            Err(e) => Err(e),
        };
    }
    if let Some(inner) = extract_generic(ty, "Vec", 0) {
        if path_ends_with_ident(inner, "u8") {
            return Ok(Kind::Bytes);
        }
        proof { lemma_generic_arg_smaller(*ty, "Vec"@, 0); }
        return match classify_type(inner) {
            Ok(k) => Ok(Kind::Repeated(Box::new(k))),
            Err(e) => Err(e),
        };
    }
    if let Some((map_kind, key, value)) = extract_map_types(ty) {
        let key_kind = match classify_key(key) {
            Ok(k) => k,
            Err(e) => { return Err(e); },
        };
        proof { lemma_map_types_smaller(*ty); }
        return match classify_type(value) {
            Ok(vk) => Ok(Kind::Keyed(map_kind, key_kind, Box::new(vk))),
            Err(e) => Err(e),
        };
    }
    if let Some(sk) = scalar_kind(ty) {
        return Ok(Kind::Scalar(sk));
    }
    if path_ends_with(ty, "prost_types", "Timestamp") {
        return Ok(Kind::Timestamp);
    }
    if path_ends_with(ty, "prost_types", "Duration") {
        return Ok(Kind::Duration);
    }
    Ok(Kind::Message)
}

/// Marks the `i32` inside a kind (itself, or the element, optional value or
/// map value) as a protobuf enumeration.
pub open spec fn with_enum(kind: Kind) -> Kind {
    match kind {
        Kind::Scalar(ScalarKind::I32) => Kind::Enumeration,
        Kind::Repeated(inner) => match *inner {
            Kind::Scalar(ScalarKind::I32) => Kind::Repeated(Box::new(Kind::Enumeration)),
            other => Kind::Repeated(Box::new(other)),
        },
        Kind::Optional(inner) => match *inner {
            Kind::Scalar(ScalarKind::I32) => Kind::Optional(Box::new(Kind::Enumeration)),
            other => Kind::Optional(Box::new(other)),
        },
        Kind::Keyed(mk, kk, value) => match *value {
            Kind::Scalar(ScalarKind::I32) => Kind::Keyed(mk, kk, Box::new(Kind::Enumeration)),
            other => Kind::Keyed(mk, kk, Box::new(other)),
        },
        other => other,
    }
}

/// `apply_enum`: the kind of a field that `prost(enumeration = ...)` marks.
pub fn apply_enum(kind: Kind) -> (r: Kind)
    ensures
        r == with_enum(kind),
{
    match kind {
        Kind::Scalar(ScalarKind::I32) => Kind::Enumeration,
        Kind::Repeated(inner) => match *inner {
            Kind::Scalar(ScalarKind::I32) => Kind::Repeated(Box::new(Kind::Enumeration)),
            other => Kind::Repeated(Box::new(other)),
        },
        Kind::Optional(inner) => match *inner {
            Kind::Scalar(ScalarKind::I32) => Kind::Optional(Box::new(Kind::Enumeration)),
            other => Kind::Optional(Box::new(other)),
        },
        Kind::Keyed(map_kind, key_kind, value) => match *value {
            Kind::Scalar(ScalarKind::I32) => Kind::Keyed(map_kind, key_kind, Box::new(Kind::Enumeration)),
            other => Kind::Keyed(map_kind, key_kind, Box::new(other)),
        },
        other => other,
    }
}

/// A message, or an optional message.
pub open spec fn message_like(kind: Kind) -> bool {
    match kind {
        Kind::Message => true,
        Kind::Optional(inner) => *inner is Message,
        _ => false,
    }
}

/// `is_message_like`: only messages and optional messages can be flattened.
pub fn is_message_like(kind: &Kind) -> (r: bool)
    ensures
        r == message_like(*kind),
{
    match kind {
        Kind::Message => true,
        Kind::Optional(inner) => matches!(**inner, Kind::Message),
        _ => false,
    }
}

/// `prost_types::Value` (any path ending in `Value` with a `prost_types`
/// segment somewhere).
pub open spec fn prost_value_type(ty: TypeRepr) -> bool {
    match ty.shape {
        TypeShape::Path(segs) => segs.len() > 0 && segs@.last().ident@ == "Value"@
            && exists|i: int| 0 <= i < segs.len() && #[trigger] segs@[i].ident@ == "prost_types"@,
        TypeShape::Other => false,
    }
}

/// `is_prost_value_type`: whether the type is `prost_types::Value`.
pub fn is_prost_value_type(ty: &TypeRepr) -> (r: bool)
    ensures
        r == prost_value_type(*ty),
{
    let segs = match &ty.shape {
        TypeShape::Path(segs) => segs,
        TypeShape::Other => { return false; },
    };
    if segs.len() == 0 || !str_eq(segs[segs.len() - 1].ident.as_str(), "Value") {
        return false;
    }
    let mut i: usize = 0;
    while i < segs.len()
        invariant
            i <= segs.len(),
            ty.shape == TypeShape::Path(*segs),
            segs.len() > 0,
            segs@.last().ident@ == "Value"@,
            forall|j: int| 0 <= j < i ==> #[trigger] segs@[j].ident@ != "prost_types"@,
        decreases segs.len() - i,
    {
        if str_eq(segs[i].ident.as_str(), "prost_types") {
            return true;
        }
        i = i + 1;
    }
    false
}

} // verus!
