//! The Rust parser's answer, through `syn`, on a text that must be a path or
//! a type. A [`Verdict`] can only come from the parser calls below, and it
//! keeps the text it was asked about.
use vstd::prelude::*;
use crate::attrs::opt_view;

verus! {

/// What a text is asked to parse as, and the text.
pub enum SyntaxCheck {
    /// A Rust path.
    Path(Seq<char>),
    /// A Rust type.
    Type(Seq<char>),
}

/// The parser's answer on one text: what was asked, and the error's message
/// (`None` when the text parsed).
pub struct Verdict {
    is_type: bool,
    text: String,
    message: Option<String>,
}

impl Verdict {
    /// What the parser was asked.
    pub closed spec fn asked(&self) -> SyntaxCheck {
        if self.is_type { SyntaxCheck::Type(self.text@) } else { SyntaxCheck::Path(self.text@) }
    }

    /// The parser's message, `None` when the text parsed.
    pub closed spec fn message_view(&self) -> Option<Seq<char>> {
        opt_view(self.message)
    }

    /// The parser's message, `None` when the text parsed.
    pub fn message(&self) -> (r: Option<String>)
        ensures
            opt_view(r) == self.message_view(),
    {
        match &self.message {
            Some(m) => Some(m.clone()),
            None => None,
        }
    }
}

/// Parses `text` with `syn::parse_str::<syn::Path>`, keeping the text and
/// only the error's message (`syn::Error`'s `Display`), `None` when it
/// parsed. Nothing is promised of the message: inside a procedural macro
/// the compiler's lexer reads the text, elsewhere proc-macro2's own, and
/// the two need not agree.
#[verifier::external_body]
pub(crate) fn check_path_syntax(text: &str) -> (r: Verdict)
    ensures
        r.asked() == SyntaxCheck::Path(text@),
{
    let message = match syn::parse_str::<syn::Path>(text) {
        Ok(_) => None,
        Err(e) => Some(e.to_string()),
    };
    Verdict { is_type: false, text: text.to_string(), message }
}

/// Parses `text` with `syn::parse_str::<syn::Type>`, keeping the text and
/// only the error's message, `None` when it parsed. Nothing is promised of
/// the message, for the same reason as for [`check_path_syntax`].
#[verifier::external_body]
pub(crate) fn check_type_syntax(text: &str) -> (r: Verdict)
    ensures
        r.asked() == SyntaxCheck::Type(text@),
{
    let message = match syn::parse_str::<syn::Type>(text) {
        Ok(_) => None,
        Err(e) => Some(e.to_string()),
    };
    Verdict { is_type: true, text: text.to_string(), message }
}

/// The message of a recorded verdict, if any.
pub open spec fn verdict_message(v: Option<Verdict>) -> Option<Seq<char>> {
    match v {
        Some(v) => v.message_view(),
        None => None,
    }
}

/// The message of a recorded verdict, if any.
pub fn message_of(v: &Option<Verdict>) -> (r: Option<String>)
    ensures
        opt_view(r) == verdict_message(*v),
{
    match v {
        Some(v) => v.message(),
        None => None,
    }
}

} // verus!
