//! Attributes as plain values: the path of each attribute and the items of
//! its argument list, as the attribute grammar reads them.
use vstd::prelude::*;
use crate::error::{err_view, plain, DeriveError, DeriveErrorKind, Expected};
use crate::text::str_eq;
use crate::parser::Verdict;

verus! {

/// What follows the path of one item in an attribute's argument list.
pub enum MetaArg {
    /// Nothing: `key`.
    Bare,
    /// `key = "text"`.
    Str(String),
    /// `key = 5` or another literal that is not a string.
    OtherLit,
    /// `key = path` or another value that is not a literal.
    OtherValue,
    /// `key =` with no value after it.
    Empty,
    /// `key(...)` with the items inside the parentheses.
    List(Vec<MetaItem>),
}

/// One item of an attribute's argument list.
pub enum MetaItem {
    /// An item with its path (`a::b` gives two segments) and argument.
    /// `verdict` is the Rust parser's verdict on the string value where the
    /// item's key asks for a path or a type (`None`: it parses, or no check
    /// applies); [`crate::syntax::check_attribute_syntax`] records it.
    Meta { path: Vec<String>, arg: MetaArg, verdict: Option<Verdict> },
    /// The grammar stopped here; the text is the parser's message.
    Malformed(String),
}

/// The arguments of an attribute.
pub enum AttrArgs {
    /// `#[name(...)]`.
    List(Vec<MetaItem>),
    /// Not a parenthesized list; the text is the parser's message.
    NotList(String),
}

/// One attribute: its path and its arguments.
pub struct Attribute {
    pub path: Vec<String>,
    pub args: AttrArgs,
}

/// Whether a path is the single identifier `name`.
pub open spec fn path_is(path: Seq<String>, name: Seq<char>) -> bool {
    path.len() == 1 && path[0]@ == name
}

/// `Path::is_ident`: the path is the single identifier `name`.
pub fn path_is_ident(path: &Vec<String>, name: &str) -> (r: bool)
    ensures
        r == path_is(path@, name@),
{
    if path.len() != 1 {
        return false;
    }
    str_eq(path[0].as_str(), name)
}

/// Whether an `=` follows the item's path.
pub open spec fn has_equals(arg: MetaArg) -> bool {
    match arg {
        MetaArg::Str(_) | MetaArg::OtherLit | MetaArg::OtherValue | MetaArg::Empty => true,
        _ => false,
    }
}

pub fn arg_has_equals(arg: &MetaArg) -> (r: bool)
    ensures
        r == has_equals(*arg),
{
    match arg {
        MetaArg::Str(_) | MetaArg::OtherLit | MetaArg::OtherValue | MetaArg::Empty => true,
        _ => false,
    }
}

/// A missing-token error.
pub open spec fn missing(what: Expected, at_end: bool) -> (DeriveErrorKind, Seq<char>) {
    plain(DeriveErrorKind::Missing { what, at_end })
}

/// Reading `= "text"` after the path: the string, or the error of the
/// grammar; `last` tells whether the item ends the list.
pub open spec fn str_value(arg: MetaArg, last: bool) -> Result<Seq<char>, (DeriveErrorKind, Seq<char>)> {
    match arg {
        MetaArg::Bare => Err(missing(Expected::Equals, last)),
        MetaArg::List(_) => Err(missing(Expected::Equals, false)),
        MetaArg::Str(s) => Ok(s@),
        MetaArg::OtherLit | MetaArg::OtherValue => Err(missing(Expected::StringLiteral, false)),
        MetaArg::Empty => Err(missing(Expected::StringLiteral, last)),
    }
}

/// Reading `= literal` after the path (any literal is accepted).
pub open spec fn lit_value(arg: MetaArg, last: bool) -> Result<(), (DeriveErrorKind, Seq<char>)> {
    match arg {
        MetaArg::Bare => Err(missing(Expected::Equals, last)),
        MetaArg::List(_) => Err(missing(Expected::Equals, false)),
        MetaArg::Str(_) | MetaArg::OtherLit => Ok(()),
        MetaArg::OtherValue => Err(missing(Expected::Literal, false)),
        MetaArg::Empty => Err(missing(Expected::Literal, last)),
    }
}

/// After an item was handled without reading its argument: anything but a
/// bare item is left over, where the grammar wants a comma.
pub open spec fn nothing_left(arg: MetaArg) -> Result<(), (DeriveErrorKind, Seq<char>)> {
    match arg {
        MetaArg::Bare => Ok(()),
        _ => Err(missing(Expected::Comma, false)),
    }
}

/// Reading `(...)` after the path: the items, or the grammar's error.
pub open spec fn list_value(arg: MetaArg, last: bool) -> Result<Seq<MetaItem>, (DeriveErrorKind, Seq<char>)> {
    match arg {
        MetaArg::List(items) => Ok(items@),
        MetaArg::Bare => Err(missing(Expected::Parentheses, last)),
        _ => Err(missing(Expected::Parentheses, false)),
    }
}

pub fn missing_error(what: Expected, at_end: bool) -> (e: DeriveError)
    ensures
        err_view(e) == missing(what, at_end),
{
    DeriveError::new(DeriveErrorKind::Missing { what, at_end })
}

/// Reads the string value of an item.
pub fn read_str_value(arg: &MetaArg, last: bool) -> (r: Result<String, DeriveError>)
    ensures
        match r {
            Ok(s) => str_value(*arg, last) == Ok::<Seq<char>, (DeriveErrorKind, Seq<char>)>(s@),
            Err(e) => str_value(*arg, last) == Err::<Seq<char>, _>(err_view(e)),
        },
{
    match arg {
        MetaArg::Bare => Err(missing_error(Expected::Equals, last)),
        MetaArg::List(_) => Err(missing_error(Expected::Equals, false)),
        MetaArg::Str(s) => Ok(s.clone()),
        MetaArg::OtherLit | MetaArg::OtherValue => Err(missing_error(Expected::StringLiteral, false)),
        MetaArg::Empty => Err(missing_error(Expected::StringLiteral, last)),
    }
}

/// Reads a literal value of an item.
pub fn read_lit_value(arg: &MetaArg, last: bool) -> (r: Result<(), DeriveError>)
    ensures
        match r {
            Ok(_) => lit_value(*arg, last) == Ok::<(), (DeriveErrorKind, Seq<char>)>(()),
            Err(e) => lit_value(*arg, last) == Err::<(), _>(err_view(e)),
        },
{
    match arg {
        MetaArg::Bare => Err(missing_error(Expected::Equals, last)),
        MetaArg::List(_) => Err(missing_error(Expected::Equals, false)),
        MetaArg::Str(_) | MetaArg::OtherLit => Ok(()),
        MetaArg::OtherValue => Err(missing_error(Expected::Literal, false)),
        MetaArg::Empty => Err(missing_error(Expected::Literal, last)),
    }
}

/// Checks that nothing follows an item that takes no argument.
pub fn check_nothing_left(arg: &MetaArg) -> (r: Result<(), DeriveError>)
    ensures
        match r {
            Ok(_) => nothing_left(*arg) == Ok::<(), (DeriveErrorKind, Seq<char>)>(()),
            Err(e) => nothing_left(*arg) == Err::<(), _>(err_view(e)),
        },
{
    match arg {
        MetaArg::Bare => Ok(()),
        _ => Err(missing_error(Expected::Comma, false)),
    }
}

/// The parser's own error, carried as a `Parse` error.
pub fn parse_error(message: &String) -> (e: DeriveError)
    ensures
        err_view(e) == (DeriveErrorKind::Parse, message@),
{
    DeriveError::with_detail(DeriveErrorKind::Parse, message.clone())
}

} // verus!
