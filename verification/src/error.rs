use vstd::prelude::*;
use crate::text::push_str;

verus! {

/// A token that the attribute grammar expected and did not find.
#[derive(Clone, Copy, Debug, PartialEq, Eq, Structural)]
pub enum Expected {
    Equals,
    Comma,
    Parentheses,
    Literal,
    StringLiteral,
}

/// Why a derive input was refused.
#[derive(Clone, Copy, Debug, PartialEq, Eq, Structural)]
pub enum DeriveErrorKind {
    /// The attribute syntax lacked a token; `at_end` when the input ended there.
    Missing { what: Expected, at_end: bool },
    /// The syntax parser refused the text; its message is the error's detail.
    Parse,
    UnsupportedRenameAll,
    /// The detail names the attribute.
    UnsupportedContainerAttribute,
    DuplicateInto,
    DuplicateFrom,
    InvalidMapEnum,
    TransparentOnField,
    FlattenOnOneof,
    FlattenWithName,
    FlattenNotMessage,
    ExpectedNamedField,
    RequiresNamedFields,
    OneofVariantShape,
    OneofAttributeOnVariant,
    UnsupportedMapKey,
    VariantTransparentOrFlatten,
    SerializeUnion,
    DeserializeUnion,
    TagOnTransparent,
    TransparentNoField,
    TransparentNotOneField,
    TransparentFieldOneofOrFlatten,
    DenyUnknownWithFlatten,
    DefaultOnEnum,
    TagOnEnum,
    OneofFieldNotOption,
    MissingOptionInner,
    MissingVecInner,
}

/// An error of the derive: its kind and, for `Parse` and
/// `UnsupportedContainerAttribute`, the text it carries (empty otherwise).
pub struct DeriveError {
    pub kind: DeriveErrorKind,
    pub detail: String,
}

/// The error as plain values.
pub open spec fn err_view(e: DeriveError) -> (DeriveErrorKind, Seq<char>) {
    (e.kind, e.detail@)
}

/// An error of the given kind with no detail.
pub open spec fn plain(kind: DeriveErrorKind) -> (DeriveErrorKind, Seq<char>) {
    (kind, Seq::empty())
}

/// A result as plain values.
pub open spec fn res_view<T>(r: Result<T, DeriveError>) -> Result<T, (DeriveErrorKind, Seq<char>)> {
    match r {
        Ok(v) => Ok(v),
        Err(e) => Err(err_view(e)),
    }
}

/// The name of an expected token in the compiler's messages.
pub open spec fn expected_text(what: Expected) -> Seq<char> {
    match what {
        Expected::Equals => "expected `=`"@,
        Expected::Comma => "expected `,`"@,
        Expected::Parentheses => "expected parentheses"@,
        Expected::Literal => "expected literal"@,
        Expected::StringLiteral => "expected string literal"@,
    }
}

/// The message that the compiler shows for an error.
pub open spec fn message_text(kind: DeriveErrorKind, detail: Seq<char>) -> Seq<char> {
    match kind {
        DeriveErrorKind::Missing { what, at_end } => if at_end {
            "unexpected end of input, "@ + expected_text(what)
        } else {
            expected_text(what)
        },
        DeriveErrorKind::Parse => detail,
        DeriveErrorKind::UnsupportedRenameAll => "unsupported rename_all case convention"@,
        DeriveErrorKind::UnsupportedContainerAttribute =>
            "unsupported serde container attribute `"@ + detail + "`"@,
        DeriveErrorKind::DuplicateInto => "only one serde into attribute may be specified"@,
        DeriveErrorKind::DuplicateFrom => "only one of serde from and try_from may be specified"@,
        DeriveErrorKind::InvalidMapEnum => "invalid map enum"@,
        DeriveErrorKind::TransparentOnField => "transparent is only supported on containers"@,
        DeriveErrorKind::FlattenOnOneof => "flatten is not supported on oneof fields"@,
        DeriveErrorKind::FlattenWithName => "flatten fields cannot set proto_name or json_name"@,
        DeriveErrorKind::FlattenNotMessage => "flatten is only supported on message fields"@,
        DeriveErrorKind::ExpectedNamedField => "expected named field"@,
        DeriveErrorKind::RequiresNamedFields => "CanonicalSerialize requires named fields"@,
        DeriveErrorKind::OneofVariantShape => "oneof variants must be tuple variants with one field"@,
        DeriveErrorKind::OneofAttributeOnVariant => "unexpected oneof attribute on variant"@,
        DeriveErrorKind::UnsupportedMapKey => "unsupported map key type"@,
        DeriveErrorKind::VariantTransparentOrFlatten =>
            "transparent and flatten are not supported on oneof variants"@,
        DeriveErrorKind::SerializeUnion => "CanonicalSerialize does not support unions"@,
        DeriveErrorKind::DeserializeUnion => "CanonicalDeserialize does not support unions"@,
        DeriveErrorKind::TagOnTransparent => "tag is only supported on structs with named fields"@,
        DeriveErrorKind::TransparentNoField => "transparent structs must have one field"@,
        DeriveErrorKind::TransparentNotOneField => "transparent structs must have exactly one field"@,
        DeriveErrorKind::TransparentFieldOneofOrFlatten =>
            "transparent fields cannot also be oneof or flatten"@,
        DeriveErrorKind::DenyUnknownWithFlatten => "deny_unknown_fields is not supported with flatten"@,
        DeriveErrorKind::DefaultOnEnum => "default is only supported on structs in prost-canonical-serde"@,
        DeriveErrorKind::TagOnEnum => "tag is not supported on enums in prost-canonical-serde"@,
        DeriveErrorKind::OneofFieldNotOption => "oneof field must be Option"@,
        DeriveErrorKind::MissingOptionInner => "missing Option inner type"@,
        DeriveErrorKind::MissingVecInner => "missing Vec inner type"@,
    }
}

fn expected_str(what: Expected) -> (r: &'static str)
    ensures
        r@ == expected_text(what),
{
    match what {
        Expected::Equals => "expected `=`",
        Expected::Comma => "expected `,`",
        Expected::Parentheses => "expected parentheses",
        Expected::Literal => "expected literal",
        Expected::StringLiteral => "expected string literal",
    }
}

impl DeriveError {
    /// An error of `kind` with no detail.
    pub fn new(kind: DeriveErrorKind) -> (e: Self)
        ensures
            err_view(e) == plain(kind),
    {
        DeriveError { kind, detail: String::new() }
    }

    /// An error of `kind` carrying `detail`.
    pub fn with_detail(kind: DeriveErrorKind, detail: String) -> (e: Self)
        ensures
            err_view(e) == (kind, detail@),
    {
        DeriveError { kind, detail }
    }

    /// The message that the compiler shows for this error.
    pub fn message(&self) -> (res: String)
        ensures
            res@ == message_text(self.kind, self.detail@),
    {
        let text: &str = match self.kind {
            DeriveErrorKind::Missing { what, at_end } => {
                let mut s = String::new();
                if at_end {
                    push_str(&mut s, "unexpected end of input, ");
                }
                push_str(&mut s, expected_str(what));
                proof {
                    reveal_strlit("unexpected end of input, ");
                    assert(s@ =~= message_text(self.kind, self.detail@));
                }
                return s;
            },
            DeriveErrorKind::Parse => {
                return self.detail.clone();
            },
            DeriveErrorKind::UnsupportedContainerAttribute => {
                let mut s = String::new();
                push_str(&mut s, "unsupported serde container attribute `");
                push_str(&mut s, self.detail.as_str());
                push_str(&mut s, "`");
                proof {
                    assert(s@ =~= message_text(self.kind, self.detail@));
                }
                return s;
            },
            DeriveErrorKind::UnsupportedRenameAll => "unsupported rename_all case convention",
            DeriveErrorKind::DuplicateInto => "only one serde into attribute may be specified",
            DeriveErrorKind::DuplicateFrom => "only one of serde from and try_from may be specified",
            DeriveErrorKind::InvalidMapEnum => "invalid map enum",
            DeriveErrorKind::TransparentOnField => "transparent is only supported on containers",
            DeriveErrorKind::FlattenOnOneof => "flatten is not supported on oneof fields",
            DeriveErrorKind::FlattenWithName => "flatten fields cannot set proto_name or json_name",
            DeriveErrorKind::FlattenNotMessage => "flatten is only supported on message fields",
            DeriveErrorKind::ExpectedNamedField => "expected named field",
            DeriveErrorKind::RequiresNamedFields => "CanonicalSerialize requires named fields",
            DeriveErrorKind::OneofVariantShape => "oneof variants must be tuple variants with one field",
            DeriveErrorKind::OneofAttributeOnVariant => "unexpected oneof attribute on variant",
            DeriveErrorKind::UnsupportedMapKey => "unsupported map key type",
            DeriveErrorKind::VariantTransparentOrFlatten =>
                "transparent and flatten are not supported on oneof variants",
            DeriveErrorKind::SerializeUnion => "CanonicalSerialize does not support unions",
            DeriveErrorKind::DeserializeUnion => "CanonicalDeserialize does not support unions",
            DeriveErrorKind::TagOnTransparent => "tag is only supported on structs with named fields",
            DeriveErrorKind::TransparentNoField => "transparent structs must have one field",
            DeriveErrorKind::TransparentNotOneField => "transparent structs must have exactly one field",
            DeriveErrorKind::TransparentFieldOneofOrFlatten =>
                "transparent fields cannot also be oneof or flatten",
            DeriveErrorKind::DenyUnknownWithFlatten => "deny_unknown_fields is not supported with flatten",
            DeriveErrorKind::DefaultOnEnum => "default is only supported on structs in prost-canonical-serde",
            DeriveErrorKind::TagOnEnum => "tag is not supported on enums in prost-canonical-serde",
            DeriveErrorKind::OneofFieldNotOption => "oneof field must be Option",
            DeriveErrorKind::MissingOptionInner => "missing Option inner type",
            DeriveErrorKind::MissingVecInner => "missing Vec inner type",
        };
        let mut s = String::new();
        push_str(&mut s, text);
        proof {
            assert(s@ =~= text@);
        }
        s
    }
}

} // verus!
