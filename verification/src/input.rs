//! A derive input as plain values: the type's identifier, attributes and
//! fields or variants.
use vstd::prelude::*;
use crate::meta::Attribute;
use crate::types::TypeRepr;

verus! {

/// One field of a struct or variant.
pub struct FieldInput {
    /// `None` for a tuple field.
    pub ident: Option<String>,
    pub ty: TypeRepr,
    pub attrs: Vec<Attribute>,
}

/// The fields of a struct or variant.
pub enum FieldsInput {
    Named(Vec<FieldInput>),
    Unnamed(Vec<FieldInput>),
    Unit,
}

/// One variant of an enum.
pub struct VariantInput {
    pub ident: String,
    pub attrs: Vec<Attribute>,
    pub fields: FieldsInput,
}

/// What the derive is applied to.
pub enum DataInput {
    Struct(FieldsInput),
    Enum(Vec<VariantInput>),
    Union,
}

/// A whole derive input.
pub struct DeriveInput {
    pub ident: String,
    pub attrs: Vec<Attribute>,
    pub data: DataInput,
}

} // verus!
