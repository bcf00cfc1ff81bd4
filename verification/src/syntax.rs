//! Which string values of attributes must parse as a Rust path or type, and
//! the parser's verdict on each of them, recorded in the attribute model.
use vstd::prelude::*;
use crate::attrs::parse_enum_path_from_map;
use crate::meta::{path_is, path_is_ident, AttrArgs, Attribute, MetaArg, MetaItem};
use crate::parser::{check_path_syntax, check_type_syntax, SyntaxCheck};

verus! {

/// Which text of an item the parser is asked about, by the attribute's and
/// the item's key: `serde(crate = ..)`, `serde(default = ..)`,
/// `prost_canonical_serde(default = ..)` and `prost(enumeration = ..)` name a
/// path; `serde(into | from | try_from = ..)` a type; the value of
/// `prost(map | btree_map | hash_map = ..)` holds a path inside `enumeration(..)`.
pub open spec fn syntax_check_of(attr_path: Seq<String>, item_path: Seq<String>, arg: MetaArg) -> Option<SyntaxCheck> {
    match arg {
        MetaArg::Str(s) => if path_is(attr_path, "serde"@) {
            if path_is(item_path, "crate"@) || path_is(item_path, "default"@) {
                Some(SyntaxCheck::Path(s@))
            } else if path_is(item_path, "into"@) || path_is(item_path, "from"@) || path_is(item_path, "try_from"@) {
                Some(SyntaxCheck::Type(s@))
            } else {
                None
            }
        } else if path_is(attr_path, "prost_canonical_serde"@) {
            if path_is(item_path, "default"@) { Some(SyntaxCheck::Path(s@)) } else { None }
        } else if path_is(attr_path, "prost"@) {
            if path_is(item_path, "enumeration"@) {
                Some(SyntaxCheck::Path(s@))
            } else if path_is(item_path, "btree_map"@) || path_is(item_path, "map"@) || path_is(item_path, "hash_map"@) {
                match crate::attrs::map_enum_path(s@, None) {
                    Ok(Some(p)) => Some(SyntaxCheck::Path(p)),
                    _ => None,
                }
            } else {
                None
            }
        } else {
            None
        },
        _ => None,
    }
}

/// `b` is `a` with the parser's verdict recorded: same paths and arguments;
/// where the item's value must parse ([`syntax_check_of`]), a verdict that
/// the parser gave on exactly that text and grammar; elsewhere none.
pub open spec fn item_recorded(attr_path: Seq<String>, a: MetaItem, b: MetaItem) -> bool {
    match (a, b) {
        (MetaItem::Malformed(m1), MetaItem::Malformed(m2)) => m1 == m2,
        (MetaItem::Meta { path: p1, arg: a1, .. }, MetaItem::Meta { path: p2, arg: a2, verdict }) =>
            p1 == p2 && a1 == a2 && match syntax_check_of(attr_path, p2@, a2) {
                None => verdict is None,
                Some(c) => verdict matches Some(v) && v.asked() == c,
            },
        _ => false,
    }
}

/// `b` is `a` with every item's verdict recorded.
pub open spec fn attribute_recorded(a: Attribute, b: Attribute) -> bool {
    &&& a.path == b.path
    &&& match (a.args, b.args) {
        (AttrArgs::NotList(m1), AttrArgs::NotList(m2)) => m1 == m2,
        (AttrArgs::List(i1), AttrArgs::List(i2)) =>
            i1@.len() == i2@.len() && forall|j: int| 0 <= j < i1@.len() ==> item_recorded(a.path@, #[trigger] i1@[j], i2@[j]),
        _ => false,
    }
}

fn record_item(attr_path: &Vec<String>, item: MetaItem) -> (r: MetaItem)
    ensures
        item_recorded(attr_path@, item, r),
{
    match item {
        MetaItem::Malformed(m) => MetaItem::Malformed(m),
        MetaItem::Meta { path, arg, verdict: _ } => {
            let verdict = match &arg {
                MetaArg::Str(s) => {
                    if path_is_ident(attr_path, "serde") {
                        if path_is_ident(&path, "crate") || path_is_ident(&path, "default") {
                            Some(check_path_syntax(s.as_str()))
                        } else if path_is_ident(&path, "into") || path_is_ident(&path, "from") || path_is_ident(&path, "try_from") {
                            Some(check_type_syntax(s.as_str()))
                        } else {
                            None
                        }
                    } else if path_is_ident(attr_path, "prost_canonical_serde") {
                        if path_is_ident(&path, "default") { Some(check_path_syntax(s.as_str())) } else { None }
                    } else if path_is_ident(attr_path, "prost") {
                        if path_is_ident(&path, "enumeration") {
                            Some(check_path_syntax(s.as_str()))
                        } else if path_is_ident(&path, "btree_map") || path_is_ident(&path, "map") || path_is_ident(&path, "hash_map") {
                            match parse_enum_path_from_map(s.as_str(), &None) {
                                Ok(Some(p)) => Some(check_path_syntax(p.as_str())),
                                _ => None,
                            }
                        } else {
                            None
                        }
                    } else {
                        None
                    }
                },
                _ => None,
            };
            MetaItem::Meta { path, arg, verdict }
        },
    }
}

/// Asks the Rust parser about every string value of `attrs` that must parse
/// as a path or a type (see [`syntax_check_of`]) and records its verdict in
/// the item; everything else is kept as it was.
pub fn check_attribute_syntax(attrs: Vec<Attribute>) -> (r: Vec<Attribute>)
    ensures
        r@.len() == attrs@.len(),
        forall|k: int| 0 <= k < attrs@.len() ==> attribute_recorded(#[trigger] attrs@[k], r@[k]),
{
    let mut rest = attrs;
    let ghost all = rest@;
    let mut out: Vec<Attribute> = Vec::new();
    while rest.len() > 0
        invariant
            out@.len() + rest@.len() == all.len(),
            rest@ == all.subrange(out@.len() as int, all.len() as int),
            forall|k: int| 0 <= k < out@.len() ==> attribute_recorded(#[trigger] all[k], out@[k]),
        decreases rest@.len(),
    {
        let ghost done = out@.len() as int;
        let attr = rest.remove(0);
        assert(attr == all[done]);
        let Attribute { path, args } = attr;
        let new_args = match args {
            AttrArgs::NotList(m) => AttrArgs::NotList(m),
            AttrArgs::List(items) => {
                let mut items_rest = items;
                let ghost all_items = items_rest@;
                let mut items_out: Vec<MetaItem> = Vec::new();
                while items_rest.len() > 0
                    invariant
                        items_out@.len() + items_rest@.len() == all_items.len(),
                        items_rest@ == all_items.subrange(items_out@.len() as int, all_items.len() as int),
                        forall|j: int| 0 <= j < items_out@.len() ==> item_recorded(path@, #[trigger] all_items[j], items_out@[j]),
                    decreases items_rest@.len(),
                {
                    let ghost d = items_out@.len() as int;
                    let item = items_rest.remove(0);
                    assert(item == all_items[d]);
                    let recorded = record_item(&path, item);
                    items_out.push(recorded);
                }
                AttrArgs::List(items_out)
            },
        };
        out.push(Attribute { path, args: new_args });
    }
    out
}

} // verus!
