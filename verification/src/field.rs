//! What the derive knows of each field and oneof variant.
use vstd::prelude::*;
use crate::attrs::{
    canonical_attrs_of, opt_view, AttrPlace, parse_canonical_attrs, parse_prost_attrs, prost_attrs_of,
    strings_view, CanonicalAttrs, CanonicalView, ContainerAttrs, ContainerDefault, DefaultView,
};
use crate::error::{err_view, plain, DeriveError, DeriveErrorKind};
use crate::input::{FieldInput, FieldsInput, VariantInput};
use crate::meta::{path_is, path_is_ident};
use crate::naming::{renamed, RenameRule};
use crate::text::{push_str, string_of};
use crate::types::{
    apply_enum, classify_type, extract_generic, generic_arg, is_message_like, kind_of,
    message_like, with_enum, Kind, TypeRepr,
};

verus! {

/// The JSON name of a field: its `json_name`; else the camelCase of its
/// `proto_name` when one is set; else the container's rule applied to the
/// field's identifier; else the camelCase of the proto name.
pub open spec fn field_name(ident: Seq<char>, attrs: CanonicalView, rule: Option<RenameRule>, proto_name: Seq<char>) -> Seq<char> {
    match attrs.json_name {
        Some(j) => j,
        None => if attrs.proto_name is Some {
            renamed(RenameRule::CamelCase, proto_name)
        } else {
            match rule {
                Some(r) => renamed(r, ident),
                None => renamed(RenameRule::CamelCase, proto_name),
            }
        },
    }
}

/// A name given by `rename`, else the one the rules give.
pub open spec fn named(rename: Option<Seq<char>>, by_rules: Seq<char>) -> Seq<char> {
    match rename {
        Some(n) => n,
        None => by_rules,
    }
}

/// The JSON name of a field.
pub fn name_for_field(ident: &str, attrs: &CanonicalAttrs, rename_rule: Option<RenameRule>, proto_name: &str) -> (r: String)
    ensures
        r@ == field_name(ident@, attrs@, rename_rule, proto_name@),
{
    if let Some(json_name) = &attrs.json_name {
        return json_name.clone();
    }
    if attrs.proto_name.is_some() {
        return RenameRule::CamelCase.apply_to_field(proto_name);
    }
    match rename_rule {
        Some(rule) => rule.apply_to_field(ident),
        None => RenameRule::CamelCase.apply_to_field(proto_name),
    }
}

/// The JSON name of a oneof variant, by the same rules as a field's.
pub fn name_for_variant(ident: &str, attrs: &CanonicalAttrs, rename_rule: Option<RenameRule>, proto_name: &str) -> (r: String)
    ensures
        r@ == field_name(ident@, attrs@, rename_rule, proto_name@),
{
    if let Some(json_name) = &attrs.json_name {
        return json_name.clone();
    }
    if attrs.proto_name.is_some() {
        return RenameRule::CamelCase.apply_to_variant(proto_name);
    }
    match rename_rule {
        Some(rule) => rule.apply_to_variant(ident),
        None => RenameRule::CamelCase.apply_to_variant(proto_name),
    }
}

/// What the derive knows of one named field.
pub struct FieldInfo<'a> {
    pub ident: String,
    pub ty: &'a TypeRepr,
    pub kind: Kind,
    /// The enumeration's path, as written, when `prost(...)` names one.
    pub enum_path: Option<String>,
    pub is_oneof: bool,
    pub is_flatten: bool,
    pub serialize_name: String,
    pub deserialize_name: String,
    pub proto_name: String,
    /// The oneof enum type, for a oneof field.
    pub oneof_type: Option<&'a TypeRepr>,
    /// `T` of an `Option<T>` field.
    pub option_inner: Option<&'a TypeRepr>,
    /// `T` of a `Vec<T>` field.
    pub vec_inner: Option<&'a TypeRepr>,
    /// More names the field is read by (`alias`), in order.
    pub aliases: Vec<String>,
    /// The field's own default for a missing or skipped entry.
    pub default: ContainerDefault,
    /// Never written (`skip` or `skip_serializing`).
    pub skip_serializing: bool,
    /// Never read: its entry is an unknown key (`skip` or `skip_deserializing`).
    pub skip_deserializing: bool,
}

/// [`FieldInfo`] as plain values.
pub struct FieldView {
    pub ident: Seq<char>,
    pub ty: TypeRepr,
    pub kind: Kind,
    pub enum_path: Option<Seq<char>>,
    pub is_oneof: bool,
    pub is_flatten: bool,
    pub serialize_name: Seq<char>,
    pub deserialize_name: Seq<char>,
    pub proto_name: Seq<char>,
    pub oneof_type: Option<TypeRepr>,
    pub option_inner: Option<TypeRepr>,
    pub vec_inner: Option<TypeRepr>,
    pub aliases: Seq<Seq<char>>,
    pub default: DefaultView,
    pub skip_serializing: bool,
    pub skip_deserializing: bool,
}

/// A reference's value.
pub open spec fn opt_deref(o: Option<&TypeRepr>) -> Option<TypeRepr> {
    match o {
        Some(t) => Some(*t),
        None => None,
    }
}

impl<'a> View for FieldInfo<'a> {
    type V = FieldView;

    open spec fn view(&self) -> FieldView {
        FieldView {
            ident: self.ident@,
            ty: *self.ty,
            kind: self.kind,
            enum_path: opt_view(self.enum_path),
            is_oneof: self.is_oneof,
            is_flatten: self.is_flatten,
            serialize_name: self.serialize_name@,
            deserialize_name: self.deserialize_name@,
            proto_name: self.proto_name@,
            oneof_type: opt_deref(self.oneof_type),
            option_inner: opt_deref(self.option_inner),
            vec_inner: opt_deref(self.vec_inner),
            aliases: strings_view(self.aliases@),
            default: self.default@,
            skip_serializing: self.skip_serializing,
            skip_deserializing: self.skip_deserializing,
        }
    }
}

/// What the derive makes of a field, given the container's settings:
/// a named field whose attributes read, with no `transparent`; its kind
/// (an enumeration where `prost(enumeration)` says so; an optional message
/// for a oneof); `flatten` only on a message or optional message that is no
/// oneof and has no name settings; its proto name (`proto_name`, else the
/// identifier), its two JSON names (`rename` before the name rules), its
/// aliases, its default and its skip flags.
pub open spec fn field_info_of(field: FieldInput, serialize_rule: Option<RenameRule>, deserialize_rule: Option<RenameRule>) -> Result<FieldView, (DeriveErrorKind, Seq<char>)> {
    match field.ident {
        None => Err(plain(DeriveErrorKind::ExpectedNamedField)),
        Some(ident) => match prost_attrs_of(field.attrs@) {
            Err(e) => Err(e),
            Ok(prost) => match canonical_attrs_of(AttrPlace::Field, field.attrs@) {
                Err(e) => Err(e),
                Ok(attrs) => if attrs.transparent {
                    Err(plain(DeriveErrorKind::TransparentOnField))
                } else {
                    match kind_of(field.ty) {
                        Err(e) => Err(e),
                        Ok(base) => {
                            let option_inner = generic_arg(field.ty, "Option"@, 0);
                            let vec_inner = generic_arg(field.ty, "Vec"@, 0);
                            let enum_kind = if prost.enum_path is Some { with_enum(base) } else { base };
                            let oneof_type = if prost.is_oneof { option_inner } else { None };
                            let kind = if prost.is_oneof && option_inner is Some {
                                Kind::Optional(Box::new(Kind::Message))
                            } else {
                                enum_kind
                            };
                            if attrs.flatten && prost.is_oneof {
                                Err(plain(DeriveErrorKind::FlattenOnOneof))
                            } else if attrs.flatten && (attrs.proto_name is Some || attrs.json_name is Some) {
                                Err(plain(DeriveErrorKind::FlattenWithName))
                            } else if attrs.flatten && !message_like(kind) {
                                Err(plain(DeriveErrorKind::FlattenNotMessage))
                            } else {
                                let proto_name = match attrs.proto_name {
                                    Some(p) => p,
                                    None => ident@,
                                };
                                Ok(FieldView {
                                    ident: ident@,
                                    ty: field.ty,
                                    kind,
                                    enum_path: prost.enum_path,
                                    is_oneof: prost.is_oneof,
                                    is_flatten: attrs.flatten,
                                    serialize_name: named(attrs.rename_serialize, field_name(ident@, attrs, serialize_rule, proto_name)),
                                    deserialize_name: named(attrs.rename_deserialize, field_name(ident@, attrs, deserialize_rule, proto_name)),
                                    proto_name,
                                    oneof_type,
                                    option_inner,
                                    vec_inner,
                                    aliases: attrs.aliases,
                                    default: attrs.default,
                                    skip_serializing: attrs.skip_serializing,
                                    skip_deserializing: attrs.skip_deserializing,
                                })
                            }
                        },
                    }
                },
            },
        },
    }
}

impl<'a> FieldInfo<'a> {
    /// Reads one named field.
    pub fn from_field(field: &'a FieldInput, container_attrs: &ContainerAttrs) -> (r: Result<Self, DeriveError>)
        ensures
            match r {
                Ok(info) => field_info_of(*field, container_attrs.serialize_rename_all, container_attrs.deserialize_rename_all)
                    == Ok::<FieldView, (DeriveErrorKind, Seq<char>)>(info@),
                Err(e) => field_info_of(*field, container_attrs.serialize_rename_all, container_attrs.deserialize_rename_all)
                    == Err::<FieldView, _>(err_view(e)),
            },
    {
        let ident = match &field.ident {
            Some(ident) => ident.clone(),
            None => { return Err(DeriveError::new(DeriveErrorKind::ExpectedNamedField)); },
        };
        let prost = match parse_prost_attrs(&field.attrs) {
            Ok(p) => p,
            Err(e) => { return Err(e); },
        };
        let attrs = match parse_canonical_attrs(AttrPlace::Field, &field.attrs) {
            Ok(a) => a,
            Err(e) => { return Err(e); },
        };
        if attrs.transparent {
            return Err(DeriveError::new(DeriveErrorKind::TransparentOnField));
        }
        let mut kind = match classify_type(&field.ty) {
            Ok(k) => k,
            Err(e) => { return Err(e); },
        };
        let mut oneof_type: Option<&'a TypeRepr> = None;
        let option_inner = extract_generic(&field.ty, "Option", 0);
        let vec_inner = extract_generic(&field.ty, "Vec", 0);
        proof {
            reveal_strlit("Option");
            reveal_strlit("Vec");
        }
        if prost.enum_path.is_some() {
            kind = apply_enum(kind);
        }
        if prost.is_oneof {
            if let Some(inner) = option_inner {
                oneof_type = Some(inner);
                kind = Kind::Optional(Box::new(Kind::Message));
            }
        }
        if attrs.flatten {
            if prost.is_oneof {
                return Err(DeriveError::new(DeriveErrorKind::FlattenOnOneof));
            }
            if attrs.proto_name.is_some() || attrs.json_name.is_some() {
                return Err(DeriveError::new(DeriveErrorKind::FlattenWithName));
            }
            if !is_message_like(&kind) {
                return Err(DeriveError::new(DeriveErrorKind::FlattenNotMessage));
            }
        }
        let proto_name = match &attrs.proto_name {
            Some(p) => p.clone(),
            None => ident.clone(),
        };
        let serialize_name = match &attrs.rename_serialize {
            Some(n) => n.clone(),
            None => name_for_field(ident.as_str(), &attrs, container_attrs.serialize_rename_all, proto_name.as_str()),
        };
        let deserialize_name = match &attrs.rename_deserialize {
            Some(n) => n.clone(),
            None => name_for_field(ident.as_str(), &attrs, container_attrs.deserialize_rename_all, proto_name.as_str()),
        };
        let ghost av = attrs@;
        Ok(FieldInfo {
            ident,
            ty: &field.ty,
            kind,
            enum_path: prost.enum_path,
            is_oneof: prost.is_oneof,
            is_flatten: attrs.flatten,
            serialize_name,
            deserialize_name,
            proto_name,
            oneof_type,
            option_inner,
            vec_inner,
            aliases: attrs.aliases,
            default: attrs.default,
            skip_serializing: attrs.skip_serializing,
            skip_deserializing: attrs.skip_deserializing,
        })
    }

    /// A flattened `Option<Message>` field.
    pub open spec fn option_message(&self) -> bool {
        self.kind matches Kind::Optional(inner) && *inner is Message
    }

    /// Whether the field is an optional message.
    pub fn is_option_message(&self) -> (r: bool)
        ensures
            r == self.option_message(),
    {
        match &self.kind {
            Kind::Optional(inner) => matches!(**inner, Kind::Message),
            _ => false,
        }
    }

    /// The message type whose fields a flattened field merges: the `T` of
    /// an `Option<T>`, else the field's own type.
    pub fn flatten_target_ty(&self) -> (r: &'a TypeRepr)
        requires
            self.option_message() ==> self.option_inner is Some,
        ensures
            *r == if self.option_message() { *self.option_inner.unwrap() } else { *self.ty },
    {
        if self.is_option_message() {
            match self.option_inner {
                Some(t) => t,
                None => self.ty,
            }
        } else {
            self.ty
        }
    }

    /// The name of the buffer that collects a flattened field's entries.
    pub fn flatten_buffer_ident(&self) -> (r: String)
        ensures
            r@ == "__pcs_flatten_"@ + self.ident@,
    {
        let mut r = string_of("__pcs_flatten_");
        push_str(&mut r, self.ident.as_str());
        r
    }
}

} // verus!
