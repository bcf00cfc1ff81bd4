//! The items that the generated code uses at run time.
use vstd::prelude::*;

verus! {

/// Internal helper trait implemented by prost-generated enums.
pub trait ProstEnum: Sized {
    fn from_i32(value: i32) -> Option<Self>;

    fn from_str_name(value: &str) -> Option<Self>;

    fn as_str_name(&self) -> &'static str;

    fn as_i32(&self) -> i32;

    /// Whether the variant with this number may not be serialized; none by default.
    fn is_variant_skipped_for_serialization(value: i32) -> (r: bool)
        default_ensures
            !r,
    {
        let _ = value;
        false
    }

    /// Whether the variant with this number may not be deserialized; none by default.
    fn is_variant_skipped_for_deserialization(value: i32) -> (r: bool)
        default_ensures
            !r,
    {
        let _ = value;
        false
    }
}

/// Internal helper used to indicate oneof match outcomes.
pub enum OneofMatch<T> {
    /// The key did not match any oneof field.
    NoMatch,
    /// The key matched a oneof field; `None` means "skip value".
    Matched(Option<T>),
}

/// Internal adapter for serializers that encode anonymous maps.
pub struct MapObjectSerializer<S>(S);

impl<S> MapObjectSerializer<S> {
    /// The serializer that this adapter wraps.
    pub closed spec fn inner(&self) -> S {
        self.0
    }

    /// Wraps a map serializer.
    pub fn new(serializer: S) -> (res: Self)
        ensures
            res.inner() == serializer,
    {
        Self(serializer)
    }

    /// Gives back the wrapped serializer.
    pub fn into_inner(self) -> (res: S)
        ensures
            res == self.inner(),
    {
        self.0
    }

    /// Borrows the wrapped serializer mutably.
    pub fn inner_mut(&mut self) -> (res: &mut S)
        ensures
            *res == old(self).inner(),
            final(self).inner() == *final(res),
    {
        &mut self.0
    }
}

/// Internal adapter for serializers that encode named structs.
pub struct StructObjectSerializer<S>(S);

impl<S> StructObjectSerializer<S> {
    /// The serializer that this adapter wraps.
    pub closed spec fn inner(&self) -> S {
        self.0
    }

    /// Wraps a struct serializer.
    pub fn new(serializer: S) -> (res: Self)
        ensures
            res.inner() == serializer,
    {
        Self(serializer)
    }

    /// Gives back the wrapped serializer.
    pub fn into_inner(self) -> (res: S)
        ensures
            res == self.inner(),
    {
        self.0
    }

    /// Borrows the wrapped serializer mutably.
    pub fn inner_mut(&mut self) -> (res: &mut S)
        ensures
            *res == old(self).inner(),
            final(self).inner() == *final(res),
    {
        &mut self.0
    }
}

} // verus!
