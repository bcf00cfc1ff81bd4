//! The attributes that the derive reads: `prost_canonical_serde(...)` on
//! containers, fields and variants, `serde(...)` on containers and
//! `prost(...)` on fields and variants.
use vstd::prelude::*;
use crate::error::{err_view, plain, DeriveError, DeriveErrorKind, Expected};
use crate::meta::{
    arg_has_equals, check_nothing_left, lit_value, read_lit_value, has_equals, list_value, missing, missing_error,
    nothing_left, parse_error, path_is, path_is_ident, read_str_value, str_value, AttrArgs,
    Attribute, MetaArg, MetaItem,
};
use crate::naming::{rule_named, RenameRule};
use crate::parser::{message_of, verdict_message};
use crate::text::{chars_of, string_from_chars, string_of};

verus! {

/// The view of an optional string.
pub open spec fn opt_view(o: Option<String>) -> Option<Seq<char>> {
    match o {
        Some(s) => Some(s@),
        None => None,
    }
}

/// The views of a list of strings.
pub open spec fn strings_view(v: Seq<String>) -> Seq<Seq<char>> {
    v.map_values(|s: String| s@)
}

/// What `prost_canonical_serde(...)` sets on a container, field or variant.
pub struct CanonicalAttrs {
    pub proto_name: Option<String>,
    pub json_name: Option<String>,
    pub transparent: bool,
    pub flatten: bool,
    /// `rename = "..."` or `rename(serialize = "...")`: the name written.
    pub rename_serialize: Option<String>,
    /// `rename = "..."` or `rename(deserialize = "...")`: the name read.
    pub rename_deserialize: Option<String>,
    /// `alias = "..."`, once per alias, in order: more names read.
    pub aliases: Vec<String>,
    /// `default` or `default = "path"`.
    pub default: ContainerDefault,
    /// `skip` or `skip_serializing`.
    pub skip_serializing: bool,
    /// `skip` or `skip_deserializing`.
    pub skip_deserializing: bool,
    /// `rename_all = "..."` or `rename_all(serialize = "...")` on a container.
    pub rename_all_serialize: Option<RenameRule>,
    /// `rename_all = "..."` or `rename_all(deserialize = "...")` on a container.
    pub rename_all_deserialize: Option<RenameRule>,
    /// `deny_unknown_fields` on a container.
    pub deny_unknown_fields: bool,
}

/// [`CanonicalAttrs`] as plain values.
pub struct CanonicalView {
    pub proto_name: Option<Seq<char>>,
    pub json_name: Option<Seq<char>>,
    pub transparent: bool,
    pub flatten: bool,
    pub rename_serialize: Option<Seq<char>>,
    pub rename_deserialize: Option<Seq<char>>,
    pub aliases: Seq<Seq<char>>,
    pub default: DefaultView,
    pub skip_serializing: bool,
    pub skip_deserializing: bool,
    pub rename_all_serialize: Option<RenameRule>,
    pub rename_all_deserialize: Option<RenameRule>,
    pub deny_unknown_fields: bool,
}

impl View for CanonicalAttrs {
    type V = CanonicalView;

    open spec fn view(&self) -> CanonicalView {
        CanonicalView {
            proto_name: opt_view(self.proto_name),
            json_name: opt_view(self.json_name),
            transparent: self.transparent,
            flatten: self.flatten,
            rename_serialize: opt_view(self.rename_serialize),
            rename_deserialize: opt_view(self.rename_deserialize),
            aliases: strings_view(self.aliases@),
            default: self.default@,
            skip_serializing: self.skip_serializing,
            skip_deserializing: self.skip_deserializing,
            rename_all_serialize: self.rename_all_serialize,
            rename_all_deserialize: self.rename_all_deserialize,
            deny_unknown_fields: self.deny_unknown_fields,
        }
    }
}

/// Nothing set.
pub open spec fn no_canonical_attrs() -> CanonicalView {
    CanonicalView {
        proto_name: None,
        json_name: None,
        transparent: false,
        flatten: false,
        rename_serialize: None,
        rename_deserialize: None,
        aliases: Seq::empty(),
        default: DefaultView::Unset,
        skip_serializing: false,
        skip_deserializing: false,
        rename_all_serialize: None,
        rename_all_deserialize: None,
        deny_unknown_fields: false,
    }
}

impl CanonicalAttrs {
    /// Nothing set.
    pub fn new() -> (r: Self)
        ensures
            r@ == no_canonical_attrs(),
    {
        let r = CanonicalAttrs {
            proto_name: None,
            json_name: None,
            transparent: false,
            flatten: false,
            rename_serialize: None,
            rename_deserialize: None,
            aliases: Vec::new(),
            default: ContainerDefault::Unset,
            skip_serializing: false,
            skip_deserializing: false,
            rename_all_serialize: None,
            rename_all_deserialize: None,
            deny_unknown_fields: false,
        };
        assert(strings_view(r.aliases@) =~= Seq::<Seq<char>>::empty());
        r
    }
}

/// The items of `rename(...)` from index `k` on: `serialize = "..."` and
/// `deserialize = "..."` set the two names; any other item is passed over
/// when nothing follows its path.
pub open spec fn name_pair_items(items: Seq<MetaItem>, k: int, acc: (Option<Seq<char>>, Option<Seq<char>>)) -> Result<(Option<Seq<char>>, Option<Seq<char>>), (DeriveErrorKind, Seq<char>)>
    decreases items.len() - k,
{
    if k < 0 || k >= items.len() {
        Ok(acc)
    } else {
        let last = k == items.len() - 1;
        match items[k] {
            MetaItem::Malformed(m) => Err((DeriveErrorKind::Parse, m@)),
            MetaItem::Meta { path, arg, .. } => {
                let step = if path_is(path@, "serialize"@) {
                    match str_value(arg, last) {
                        Ok(s) => Ok((Some(s), acc.1)),
                        Err(e) => Err(e),
                    }
                } else if path_is(path@, "deserialize"@) {
                    match str_value(arg, last) {
                        Ok(s) => Ok((acc.0, Some(s))),
                        Err(e) => Err(e),
                    }
                } else {
                    match nothing_left(arg) {
                        Ok(_) => Ok(acc),
                        Err(e) => Err(e),
                    }
                };
                match step {
                    Ok(next) => name_pair_items(items, k + 1, next),
                    Err(e) => Err(e),
                }
            },
        }
    }
}

/// The items of `rename_all(...)` from index `k` on: `serialize = "..."`
/// and `deserialize = "..."` set the two rules.
pub open spec fn rule_pair_items(items: Seq<MetaItem>, k: int, acc: (Option<RenameRule>, Option<RenameRule>)) -> Result<(Option<RenameRule>, Option<RenameRule>), (DeriveErrorKind, Seq<char>)>
    decreases items.len() - k,
{
    if k < 0 || k >= items.len() {
        Ok(acc)
    } else {
        let last = k == items.len() - 1;
        match items[k] {
            MetaItem::Malformed(m) => Err((DeriveErrorKind::Parse, m@)),
            MetaItem::Meta { path, arg, .. } => {
                let step = if path_is(path@, "serialize"@) {
                    match rule_value(arg, last) {
                        Ok(r) => Ok((Some(r), acc.1)),
                        Err(e) => Err(e),
                    }
                } else if path_is(path@, "deserialize"@) {
                    match rule_value(arg, last) {
                        Ok(r) => Ok((acc.0, Some(r))),
                        Err(e) => Err(e),
                    }
                } else {
                    match nothing_left(arg) {
                        Ok(_) => Ok(acc),
                        Err(e) => Err(e),
                    }
                };
                match step {
                    Ok(next) => rule_pair_items(items, k + 1, next),
                    Err(e) => Err(e),
                }
            },
        }
    }
}

/// `rename = "..."` sets both names, `rename(...)` each one.
pub open spec fn canonical_rename(arg: MetaArg, last: bool, acc: CanonicalView) -> Result<CanonicalView, (DeriveErrorKind, Seq<char>)> {
    if has_equals(arg) {
        match str_value(arg, last) {
            Ok(s) => Ok(CanonicalView { rename_serialize: Some(s), rename_deserialize: Some(s), ..acc }),
            Err(e) => Err(e),
        }
    } else {
        match list_value(arg, last) {
            Ok(items) => match name_pair_items(items, 0, (acc.rename_serialize, acc.rename_deserialize)) {
                Ok((a, b)) => Ok(CanonicalView { rename_serialize: a, rename_deserialize: b, ..acc }),
                Err(e) => Err(e),
            },
            Err(e) => Err(e),
        }
    }
}

/// `rename_all = "..."` sets both rules, `rename_all(...)` each one.
pub open spec fn canonical_rename_all(arg: MetaArg, last: bool, acc: CanonicalView) -> Result<CanonicalView, (DeriveErrorKind, Seq<char>)> {
    if has_equals(arg) {
        match rule_value(arg, last) {
            Ok(r) => Ok(CanonicalView { rename_all_serialize: Some(r), rename_all_deserialize: Some(r), ..acc }),
            Err(e) => Err(e),
        }
    } else {
        match list_value(arg, last) {
            Ok(items) => match rule_pair_items(items, 0, (acc.rename_all_serialize, acc.rename_all_deserialize)) {
                Ok((a, b)) => Ok(CanonicalView { rename_all_serialize: a, rename_all_deserialize: b, ..acc }),
                Err(e) => Err(e),
            },
            Err(e) => Err(e),
        }
    }
}

/// A key that takes no value sets its flags.
pub open spec fn canonical_flag(path: Seq<String>, acc: CanonicalView) -> CanonicalView {
    if path_is(path, "transparent"@) {
        CanonicalView { transparent: true, ..acc }
    } else if path_is(path, "flatten"@) {
        CanonicalView { flatten: true, ..acc }
    } else if path_is(path, "skip"@) {
        CanonicalView { skip_serializing: true, skip_deserializing: true, ..acc }
    } else if path_is(path, "skip_serializing"@) {
        CanonicalView { skip_serializing: true, ..acc }
    } else if path_is(path, "skip_deserializing"@) {
        CanonicalView { skip_deserializing: true, ..acc }
    } else if path_is(path, "deny_unknown_fields"@) {
        CanonicalView { deny_unknown_fields: true, ..acc }
    } else {
        acc
    }
}

/// Where a `prost_canonical_serde(...)` attribute stands.
#[derive(Clone, Copy, Debug, PartialEq, Eq, Structural)]
pub enum AttrPlace {
    /// On the struct or enum itself.
    Container,
    /// On a named field.
    Field,
    /// On a variant of a oneof or of a protobuf enumeration.
    Variant,
}

/// The keys that a place knows: `proto_name`, `json_name`, `transparent`
/// and `flatten` everywhere (the rules on them come later); `rename_all`
/// and `deny_unknown_fields` only on containers; `rename`, `alias`, `skip`,
/// `skip_serializing` and `skip_deserializing` only on fields and variants;
/// `default` on containers and fields. Elsewhere a key is an unknown one.
pub open spec fn key_allowed(place: AttrPlace, path: Seq<String>) -> bool {
    ||| path_is(path, "proto_name"@)
    ||| path_is(path, "json_name"@)
    ||| path_is(path, "transparent"@)
    ||| path_is(path, "flatten"@)
    ||| (place is Container && (path_is(path, "rename_all"@) || path_is(path, "deny_unknown_fields"@)))
    ||| (!(place is Container) && (path_is(path, "rename"@) || path_is(path, "alias"@) || path_is(path, "skip"@)
        || path_is(path, "skip_serializing"@) || path_is(path, "skip_deserializing"@)))
    ||| (!(place is Variant) && path_is(path, "default"@))
}

/// Whether the place knows the key.
pub fn place_allows(place: AttrPlace, path: &Vec<String>) -> (r: bool)
    ensures
        r == key_allowed(place, path@),
{
    if path_is_ident(path, "proto_name") || path_is_ident(path, "json_name") || path_is_ident(path, "transparent")
        || path_is_ident(path, "flatten") {
        return true;
    }
    let container = matches!(place, AttrPlace::Container);
    if container && (path_is_ident(path, "rename_all") || path_is_ident(path, "deny_unknown_fields")) {
        return true;
    }
    if !container && (path_is_ident(path, "rename") || path_is_ident(path, "alias") || path_is_ident(path, "skip")
        || path_is_ident(path, "skip_serializing") || path_is_ident(path, "skip_deserializing")) {
        return true;
    }
    !matches!(place, AttrPlace::Variant) && path_is_ident(path, "default")
}

/// One item of a `prost_canonical_serde(...)` list: `proto_name`,
/// `json_name` and `alias` take a string (each `alias` adds one name);
/// `rename` and `rename_all` a string or a `(serialize, deserialize)` list;
/// `default` nothing or a path; the flags (`transparent`, `flatten`, `skip`,
/// `skip_serializing`, `skip_deserializing`, `deny_unknown_fields`) nothing;
/// any other key is passed over when nothing follows its path.
pub open spec fn canonical_item(place: AttrPlace, path: Seq<String>, arg: MetaArg, last: bool, verdict: Option<Seq<char>>, acc: CanonicalView) -> Result<CanonicalView, (DeriveErrorKind, Seq<char>)> {
    if !key_allowed(place, path) {
        match nothing_left(arg) {
            Ok(_) => Ok(acc),
            Err(e) => Err(e),
        }
    } else if path_is(path, "proto_name"@) {
        match str_value(arg, last) {
            Ok(s) => Ok(CanonicalView { proto_name: Some(s), ..acc }),
            Err(e) => Err(e),
        }
    } else if path_is(path, "json_name"@) {
        match str_value(arg, last) {
            Ok(s) => Ok(CanonicalView { json_name: Some(s), ..acc }),
            Err(e) => Err(e),
        }
    } else if path_is(path, "alias"@) {
        match str_value(arg, last) {
            Ok(s) => Ok(CanonicalView { aliases: acc.aliases.push(s), ..acc }),
            Err(e) => Err(e),
        }
    } else if path_is(path, "rename"@) {
        canonical_rename(arg, last, acc)
    } else if path_is(path, "rename_all"@) {
        canonical_rename_all(arg, last, acc)
    } else if path_is(path, "default"@) {
        if has_equals(arg) {
            match path_value(arg, last, verdict) {
                Ok(p) => Ok(CanonicalView { default: DefaultView::Path(p), ..acc }),
                Err(e) => Err(e),
            }
        } else {
            match nothing_left(arg) {
                Ok(_) => Ok(CanonicalView { default: DefaultView::Default, ..acc }),
                Err(e) => Err(e),
            }
        }
    } else {
        match nothing_left(arg) {
            Ok(_) => Ok(canonical_flag(path, acc)),
            Err(e) => Err(e),
        }
    }
}

/// Reads the items of one `prost_canonical_serde(...)` list from index `k`
/// on, starting from `acc`, item by item ([`canonical_item`]).
pub open spec fn canonical_items(place: AttrPlace, items: Seq<MetaItem>, k: int, acc: CanonicalView) -> Result<CanonicalView, (DeriveErrorKind, Seq<char>)>
    decreases items.len() - k,
{
    if k < 0 || k >= items.len() {
        Ok(acc)
    } else {
        match items[k] {
            MetaItem::Malformed(m) => Err((DeriveErrorKind::Parse, m@)),
            MetaItem::Meta { path, arg, verdict } => match canonical_item(place, path@, arg, k == items.len() - 1, verdict_message(verdict), acc) {
                Ok(next) => canonical_items(place, items, k + 1, next),
                Err(e) => Err(e),
            },
        }
    }
}

/// Reads every `prost_canonical_serde(...)` attribute from index `k` on;
/// other attributes are passed over.
pub open spec fn canonical_attrs_from(place: AttrPlace, attrs: Seq<Attribute>, k: int, acc: CanonicalView) -> Result<CanonicalView, (DeriveErrorKind, Seq<char>)>
    decreases attrs.len() - k,
{
    if k < 0 || k >= attrs.len() {
        Ok(acc)
    } else if !path_is(attrs[k].path@, "prost_canonical_serde"@) {
        canonical_attrs_from(place, attrs, k + 1, acc)
    } else {
        match attrs[k].args {
            AttrArgs::NotList(m) => Err((DeriveErrorKind::Parse, m@)),
            AttrArgs::List(items) => match canonical_items(place, items@, 0, acc) {
                Ok(next) => canonical_attrs_from(place, attrs, k + 1, next),
                Err(e) => Err(e),
            },
        }
    }
}

/// The `prost_canonical_serde(...)` settings of an item.
pub open spec fn canonical_attrs_of(place: AttrPlace, attrs: Seq<Attribute>) -> Result<CanonicalView, (DeriveErrorKind, Seq<char>)> {
    canonical_attrs_from(place, attrs, 0, no_canonical_attrs())
}

fn name_pair_list(items: &Vec<MetaItem>, ser: Option<String>, de: Option<String>) -> (r: Result<(Option<String>, Option<String>), DeriveError>)
    ensures
        match r {
            Ok((a, b)) => name_pair_items(items@, 0, (opt_view(ser), opt_view(de))) == Ok::<_, (DeriveErrorKind, Seq<char>)>((opt_view(a), opt_view(b))),
            Err(e) => name_pair_items(items@, 0, (opt_view(ser), opt_view(de))) == Err::<(Option<Seq<char>>, Option<Seq<char>>), _>(err_view(e)),
        },
{
    let mut a = ser;
    let mut b = de;
    let ghost start = (opt_view(a), opt_view(b));
    let mut k: usize = 0;
    while k < items.len()
        invariant
            k <= items.len(),
            start == (opt_view(ser), opt_view(de)),
            name_pair_items(items@, k as int, (opt_view(a), opt_view(b))) == name_pair_items(items@, 0, start),
        decreases items.len() - k,
    {
        let last = k + 1 == items.len();
        match &items[k] {
            MetaItem::Malformed(m) => { return Err(parse_error(m)); },
            MetaItem::Meta { path, arg, .. } => {
                if path_is_ident(path, "serialize") {
                    match read_str_value(arg, last) {
                        Ok(s) => { a = Some(s); },
                        Err(e) => { return Err(e); },
                    }
                } else if path_is_ident(path, "deserialize") {
                    match read_str_value(arg, last) {
                        Ok(s) => { b = Some(s); },
                        Err(e) => { return Err(e); },
                    }
                } else {
                    match check_nothing_left(arg) {
                        Ok(_) => {},
                        Err(e) => { return Err(e); },
                    }
                }
            },
        }
        k = k + 1;
    }
    Ok((a, b))
}

fn rule_pair_list(items: &Vec<MetaItem>, ser: Option<RenameRule>, de: Option<RenameRule>) -> (r: Result<(Option<RenameRule>, Option<RenameRule>), DeriveError>)
    ensures
        match r {
            Ok((a, b)) => rule_pair_items(items@, 0, (ser, de)) == Ok::<_, (DeriveErrorKind, Seq<char>)>((a, b)),
            Err(e) => rule_pair_items(items@, 0, (ser, de)) == Err::<(Option<RenameRule>, Option<RenameRule>), _>(err_view(e)),
        },
{
    let mut a = ser;
    let mut b = de;
    let mut k: usize = 0;
    while k < items.len()
        invariant
            k <= items.len(),
            rule_pair_items(items@, k as int, (a, b)) == rule_pair_items(items@, 0, (ser, de)),
        decreases items.len() - k,
    {
        let last = k + 1 == items.len();
        match &items[k] {
            MetaItem::Malformed(m) => { return Err(parse_error(m)); },
            MetaItem::Meta { path, arg, .. } => {
                if path_is_ident(path, "serialize") {
                    match read_rule_value(arg, last) {
                        Ok(rule) => { a = Some(rule); },
                        Err(e) => { return Err(e); },
                    }
                } else if path_is_ident(path, "deserialize") {
                    match read_rule_value(arg, last) {
                        Ok(rule) => { b = Some(rule); },
                        Err(e) => { return Err(e); },
                    }
                } else {
                    match check_nothing_left(arg) {
                        Ok(_) => {},
                        Err(e) => { return Err(e); },
                    }
                }
            },
        }
        k = k + 1;
    }
    Ok((a, b))
}

fn canonical_rename_step(arg: &MetaArg, last: bool, init: CanonicalAttrs) -> (r: Result<CanonicalAttrs, DeriveError>)
    ensures
        match r {
            Ok(a) => canonical_rename(*arg, last, init@) == Ok::<CanonicalView, (DeriveErrorKind, Seq<char>)>(a@),
            Err(e) => canonical_rename(*arg, last, init@) == Err::<CanonicalView, _>(err_view(e)),
        },
{
    let mut acc = init;
    if arg_has_equals(arg) {
        match read_str_value(arg, last) {
            Ok(s) => {
                acc.rename_serialize = Some(s.clone());
                acc.rename_deserialize = Some(s);
                Ok(acc)
            },
            Err(e) => Err(e),
        }
    } else {
        match arg {
            MetaArg::List(items) => {
                let ser = acc.rename_serialize.clone();
                let de = acc.rename_deserialize.clone();
                proof {
                    assert(opt_view(ser) == opt_view(acc.rename_serialize));
                    assert(opt_view(de) == opt_view(acc.rename_deserialize));
                }
                match name_pair_list(items, ser, de) {
                    Ok((a, b)) => {
                        acc.rename_serialize = a;
                        acc.rename_deserialize = b;
                        Ok(acc)
                    },
                    Err(e) => Err(e),
                }
            },
            MetaArg::Bare => Err(missing_error(Expected::Parentheses, last)),
            _ => Err(missing_error(Expected::Parentheses, false)),
        }
    }
}

fn canonical_rename_all_step(arg: &MetaArg, last: bool, init: CanonicalAttrs) -> (r: Result<CanonicalAttrs, DeriveError>)
    ensures
        match r {
            Ok(a) => canonical_rename_all(*arg, last, init@) == Ok::<CanonicalView, (DeriveErrorKind, Seq<char>)>(a@),
            Err(e) => canonical_rename_all(*arg, last, init@) == Err::<CanonicalView, _>(err_view(e)),
        },
{
    let mut acc = init;
    if arg_has_equals(arg) {
        match read_rule_value(arg, last) {
            Ok(rule) => {
                acc.rename_all_serialize = Some(rule);
                acc.rename_all_deserialize = Some(rule);
                Ok(acc)
            },
            Err(e) => Err(e),
        }
    } else {
        match arg {
            MetaArg::List(items) => match rule_pair_list(items, acc.rename_all_serialize, acc.rename_all_deserialize) {
                Ok((a, b)) => {
                    acc.rename_all_serialize = a;
                    acc.rename_all_deserialize = b;
                    Ok(acc)
                },
                Err(e) => Err(e),
            },
            MetaArg::Bare => Err(missing_error(Expected::Parentheses, last)),
            _ => Err(missing_error(Expected::Parentheses, false)),
        }
    }
}

fn canonical_flag_step(path: &Vec<String>, init: CanonicalAttrs) -> (r: CanonicalAttrs)
    ensures
        r@ == canonical_flag(path@, init@),
{
    let mut acc = init;
    if path_is_ident(path, "transparent") {
        acc.transparent = true;
    } else if path_is_ident(path, "flatten") {
        acc.flatten = true;
    } else if path_is_ident(path, "skip") {
        acc.skip_serializing = true;
        acc.skip_deserializing = true;
    } else if path_is_ident(path, "skip_serializing") {
        acc.skip_serializing = true;
    } else if path_is_ident(path, "skip_deserializing") {
        acc.skip_deserializing = true;
    } else if path_is_ident(path, "deny_unknown_fields") {
        acc.deny_unknown_fields = true;
    }
    acc
}

fn canonical_value_step(place: AttrPlace, path: &Vec<String>, arg: &MetaArg, last: bool, init: CanonicalAttrs) -> (r: Result<CanonicalAttrs, DeriveError>)
    requires
        path_is(path@, "proto_name"@) || path_is(path@, "json_name"@) || path_is(path@, "alias"@),
        key_allowed(place, path@),
    ensures
        match r {
            Ok(a) => canonical_item(place, path@, *arg, last, None, init@) == Ok::<CanonicalView, (DeriveErrorKind, Seq<char>)>(a@),
            Err(e) => canonical_item(place, path@, *arg, last, None, init@) == Err::<CanonicalView, _>(err_view(e)),
        },
{
    let mut acc = init;
    match read_str_value(arg, last) {
        Ok(s) => {
            if path_is_ident(path, "proto_name") {
                acc.proto_name = Some(s);
            } else if path_is_ident(path, "json_name") {
                acc.json_name = Some(s);
            } else {
                let ghost before = acc.aliases@;
                acc.aliases.push(s);
                proof { assert(strings_view(acc.aliases@) =~= strings_view(before).push(s@)); }
            }
            Ok(acc)
        },
        Err(e) => Err(e),
    }
}

fn canonical_step(place: AttrPlace, path: &Vec<String>, arg: &MetaArg, last: bool, verdict: &Option<String>, init: CanonicalAttrs) -> (r: Result<CanonicalAttrs, DeriveError>)
    ensures
        match r {
            Ok(a) => canonical_item(place, path@, *arg, last, opt_view(*verdict), init@) == Ok::<CanonicalView, (DeriveErrorKind, Seq<char>)>(a@),
            Err(e) => canonical_item(place, path@, *arg, last, opt_view(*verdict), init@) == Err::<CanonicalView, _>(err_view(e)),
        },
{
    if !place_allows(place, path) {
        match check_nothing_left(arg) {
            Ok(_) => Ok(init),
            Err(e) => Err(e),
        }
    } else if path_is_ident(path, "proto_name") || path_is_ident(path, "json_name") || path_is_ident(path, "alias") {
        canonical_value_step(place, path, arg, last, init)
    } else if path_is_ident(path, "rename") {
        canonical_rename_step(arg, last, init)
    } else if path_is_ident(path, "rename_all") {
        canonical_rename_all_step(arg, last, init)
    } else if path_is_ident(path, "default") {
        let mut acc = init;
        if arg_has_equals(arg) {
            match read_path_value(arg, last, verdict) {
                Ok(p) => { acc.default = ContainerDefault::Path(p); Ok(acc) },
                Err(e) => Err(e),
            }
        } else {
            match check_nothing_left(arg) {
                Ok(_) => { acc.default = ContainerDefault::Default; Ok(acc) },
                Err(e) => Err(e),
            }
        }
    } else {
        match check_nothing_left(arg) {
            Ok(_) => Ok(canonical_flag_step(path, init)),
            Err(e) => Err(e),
        }
    }
}

fn canonical_list(place: AttrPlace, items: &Vec<MetaItem>, init: CanonicalAttrs) -> (r: Result<CanonicalAttrs, DeriveError>)
    ensures
        match r {
            Ok(a) => canonical_items(place, items@, 0, init@) == Ok::<CanonicalView, (DeriveErrorKind, Seq<char>)>(a@),
            Err(e) => canonical_items(place, items@, 0, init@) == Err::<CanonicalView, _>(err_view(e)),
        },
{
    let mut acc = init;
    let ghost start = acc@;
    let mut k: usize = 0;
    while k < items.len()
        invariant
            k <= items.len(),
            start == init@,
            canonical_items(place, items@, k as int, acc@) == canonical_items(place, items@, 0, start),
        decreases items.len() - k,
    {
        let last = k + 1 == items.len();
        match &items[k] {
            MetaItem::Malformed(m) => {
                return Err(parse_error(m));
            },
            MetaItem::Meta { path, arg, verdict } => {
                match canonical_step(place, path, arg, last, &message_of(verdict), acc) {
                    Ok(next) => { acc = next; },
                    Err(e) => { return Err(e); },
                }
            },
        }
        k = k + 1;
    }
    Ok(acc)
}

/// Reads the `prost_canonical_serde(...)` attributes of an item.
pub fn parse_canonical_attrs(place: AttrPlace, attrs: &Vec<Attribute>) -> (r: Result<CanonicalAttrs, DeriveError>)
    ensures
        match r {
            Ok(a) => canonical_attrs_of(place, attrs@) == Ok::<CanonicalView, (DeriveErrorKind, Seq<char>)>(a@),
            Err(e) => canonical_attrs_of(place, attrs@) == Err::<CanonicalView, _>(err_view(e)),
        },
{
    let mut parsed = CanonicalAttrs::new();
    let mut k: usize = 0;
    while k < attrs.len()
        invariant
            k <= attrs.len(),
            canonical_attrs_from(place, attrs@, k as int, parsed@) == canonical_attrs_of(place, attrs@),
        decreases attrs.len() - k,
    {
        let attr = &attrs[k];
        if path_is_ident(&attr.path, "prost_canonical_serde") {
            match &attr.args {
                AttrArgs::NotList(m) => {
                    return Err(parse_error(m));
                },
                AttrArgs::List(items) => {
                    match canonical_list(place, items, parsed) {
                        Ok(next) => { parsed = next; },
                        Err(e) => { return Err(e); },
                    }
                },
            }
        }
        k = k + 1;
    }
    Ok(parsed)
}

/// `serde(into = "...")`: the type, as written, that serialization goes through.
pub enum SerializeVia {
    Direct,
    Into(String),
}

/// `serde(from = "...")` or `serde(try_from = "...")`: the type, as written,
/// that deserialization goes through.
pub enum DeserializeVia {
    Direct,
    From(String),
    TryFrom(String),
}

/// `serde(default)` or `serde(default = "path")` on a container.
pub enum ContainerDefault {
    Unset,
    Default,
    Path(String),
}

/// [`SerializeVia`] as plain values.
pub enum SerializeViaView {
    Direct,
    Into(Seq<char>),
}

/// [`DeserializeVia`] as plain values.
pub enum DeserializeViaView {
    Direct,
    From(Seq<char>),
    TryFrom(Seq<char>),
}

/// [`ContainerDefault`] as plain values.
pub enum DefaultView {
    Unset,
    Default,
    Path(Seq<char>),
}

impl View for SerializeVia {
    type V = SerializeViaView;

    open spec fn view(&self) -> SerializeViaView {
        match self {
            SerializeVia::Direct => SerializeViaView::Direct,
            SerializeVia::Into(t) => SerializeViaView::Into(t@),
        }
    }
}

impl View for DeserializeVia {
    type V = DeserializeViaView;

    open spec fn view(&self) -> DeserializeViaView {
        match self {
            DeserializeVia::Direct => DeserializeViaView::Direct,
            DeserializeVia::From(t) => DeserializeViaView::From(t@),
            DeserializeVia::TryFrom(t) => DeserializeViaView::TryFrom(t@),
        }
    }
}

impl View for ContainerDefault {
    type V = DefaultView;

    open spec fn view(&self) -> DefaultView {
        match self {
            ContainerDefault::Unset => DefaultView::Unset,
            ContainerDefault::Default => DefaultView::Default,
            ContainerDefault::Path(p) => DefaultView::Path(p@),
        }
    }
}

/// The settings of a struct or enum as a whole.
pub struct ContainerAttrs {
    pub transparent: bool,
    pub serialize_name: String,
    pub deserialize_name: String,
    pub serialize_rename_all: Option<RenameRule>,
    pub deserialize_rename_all: Option<RenameRule>,
    /// The path of the serde crate, as written (`::serde` unless `serde(crate = "...")`).
    pub serde_path: String,
    pub serialize_via: SerializeVia,
    pub deserialize_via: DeserializeVia,
    pub deny_unknown_fields: bool,
    pub tag: Option<String>,
    /// `serde(expecting = "...")`: what the reader says it expected.
    pub expecting: Option<String>,
    pub default: ContainerDefault,
}

/// [`ContainerAttrs`] as plain values.
pub struct ContainerView {
    pub transparent: bool,
    pub serialize_name: Seq<char>,
    pub deserialize_name: Seq<char>,
    pub serialize_rename_all: Option<RenameRule>,
    pub deserialize_rename_all: Option<RenameRule>,
    pub serde_path: Seq<char>,
    pub serialize_via: SerializeViaView,
    pub deserialize_via: DeserializeViaView,
    pub deny_unknown_fields: bool,
    pub tag: Option<Seq<char>>,
    pub expecting: Option<Seq<char>>,
    pub default: DefaultView,
}

impl View for ContainerAttrs {
    type V = ContainerView;

    open spec fn view(&self) -> ContainerView {
        ContainerView {
            transparent: self.transparent,
            serialize_name: self.serialize_name@,
            deserialize_name: self.deserialize_name@,
            serialize_rename_all: self.serialize_rename_all,
            deserialize_rename_all: self.deserialize_rename_all,
            serde_path: self.serde_path@,
            serialize_via: self.serialize_via@,
            deserialize_via: self.deserialize_via@,
            deny_unknown_fields: self.deny_unknown_fields,
            tag: opt_view(self.tag),
            expecting: opt_view(self.expecting),
            default: self.default@,
        }
    }
}

/// The settings before any `serde(...)` item: both names are the type's
/// identifier, serde is `::serde`; `transparent`, the rename rules, the
/// default and `deny_unknown_fields` are those of `prost_canonical_serde(...)`.
pub open spec fn initial_container(ident: Seq<char>, c: CanonicalView) -> ContainerView {
    ContainerView {
        transparent: c.transparent,
        serialize_name: ident,
        deserialize_name: ident,
        serialize_rename_all: c.rename_all_serialize,
        deserialize_rename_all: c.rename_all_deserialize,
        serde_path: "::serde"@,
        serialize_via: SerializeViaView::Direct,
        deserialize_via: DeserializeViaView::Direct,
        deny_unknown_fields: c.deny_unknown_fields,
        tag: None,
        expecting: None,
        default: c.default,
    }
}

/// The items of `rename(...)`: `serialize = "..."` and `deserialize = "..."`.
pub open spec fn rename_items(items: Seq<MetaItem>, k: int, acc: ContainerView) -> Result<ContainerView, (DeriveErrorKind, Seq<char>)>
    decreases items.len() - k,
{
    if k < 0 || k >= items.len() {
        Ok(acc)
    } else {
        let last = k == items.len() - 1;
        match items[k] {
            MetaItem::Malformed(m) => Err((DeriveErrorKind::Parse, m@)),
            MetaItem::Meta { path, arg, .. } => {
                let step = if path_is(path@, "serialize"@) {
                    match str_value(arg, last) {
                        Ok(s) => Ok(ContainerView { serialize_name: s, ..acc }),
                        Err(e) => Err(e),
                    }
                } else if path_is(path@, "deserialize"@) {
                    match str_value(arg, last) {
                        Ok(s) => Ok(ContainerView { deserialize_name: s, ..acc }),
                        Err(e) => Err(e),
                    }
                } else {
                    match nothing_left(arg) {
                        Ok(_) => Ok(acc),
                        Err(e) => Err(e),
                    }
                };
                match step {
                    Ok(next) => rename_items(items, k + 1, next),
                    Err(e) => Err(e),
                }
            },
        }
    }
}

/// The rule that a `rename_all` value names, or the error for an unknown one.
pub open spec fn rule_value(arg: MetaArg, last: bool) -> Result<RenameRule, (DeriveErrorKind, Seq<char>)> {
    match str_value(arg, last) {
        Ok(s) => match rule_named(s) {
            Some(rule) => Ok(rule),
            None => Err(plain(DeriveErrorKind::UnsupportedRenameAll)),
        },
        Err(e) => Err(e),
    }
}

/// The items of `rename_all(...)`: `serialize = "..."` and `deserialize = "..."`.
pub open spec fn rename_all_items(items: Seq<MetaItem>, k: int, acc: ContainerView) -> Result<ContainerView, (DeriveErrorKind, Seq<char>)>
    decreases items.len() - k,
{
    if k < 0 || k >= items.len() {
        Ok(acc)
    } else {
        let last = k == items.len() - 1;
        match items[k] {
            MetaItem::Malformed(m) => Err((DeriveErrorKind::Parse, m@)),
            MetaItem::Meta { path, arg, .. } => {
                let step = if path_is(path@, "serialize"@) {
                    match rule_value(arg, last) {
                        Ok(r) => Ok(ContainerView { serialize_rename_all: Some(r), ..acc }),
                        Err(e) => Err(e),
                    }
                } else if path_is(path@, "deserialize"@) {
                    match rule_value(arg, last) {
                        Ok(r) => Ok(ContainerView { deserialize_rename_all: Some(r), ..acc }),
                        Err(e) => Err(e),
                    }
                } else {
                    match nothing_left(arg) {
                        Ok(_) => Ok(acc),
                        Err(e) => Err(e),
                    }
                };
                match step {
                    Ok(next) => rename_all_items(items, k + 1, next),
                    Err(e) => Err(e),
                }
            },
        }
    }
}

/// A path given as a string value, checked by the path grammar.
pub open spec fn path_value(arg: MetaArg, last: bool, verdict: Option<Seq<char>>) -> Result<Seq<char>, (DeriveErrorKind, Seq<char>)> {
    match str_value(arg, last) {
        Ok(s) => match verdict {
            None => Ok(s),
            Some(m) => Err((DeriveErrorKind::Parse, m)),
        },
        Err(e) => Err(e),
    }
}

/// A type given as a string value, checked by the type grammar.
pub open spec fn type_value(arg: MetaArg, last: bool, verdict: Option<Seq<char>>) -> Result<Seq<char>, (DeriveErrorKind, Seq<char>)> {
    match str_value(arg, last) {
        Ok(s) => match verdict {
            None => Ok(s),
            Some(m) => Err((DeriveErrorKind::Parse, m)),
        },
        Err(e) => Err(e),
    }
}

/// The last segment of a path, or `attribute` for an empty one.
pub open spec fn last_segment(path: Seq<String>) -> Seq<char> {
    if path.len() == 0 {
        "attribute"@
    } else {
        path.last()@
    }
}

/// `rename = "..."` sets both names; `rename(...)` sets them one by one.
pub open spec fn rename_item(arg: MetaArg, last: bool, acc: ContainerView) -> Result<ContainerView, (DeriveErrorKind, Seq<char>)> {
    if has_equals(arg) {
        match str_value(arg, last) {
            Ok(s) => Ok(ContainerView { serialize_name: s, deserialize_name: s, ..acc }),
            Err(e) => Err(e),
        }
    } else {
        match list_value(arg, last) {
            Ok(items) => rename_items(items, 0, acc),
            Err(e) => Err(e),
        }
    }
}

/// `rename_all = "..."` sets both rules; `rename_all(...)` sets them one by one.
pub open spec fn rename_all_item(arg: MetaArg, last: bool, acc: ContainerView) -> Result<ContainerView, (DeriveErrorKind, Seq<char>)> {
    if has_equals(arg) {
        match rule_value(arg, last) {
            Ok(r) => Ok(ContainerView { serialize_rename_all: Some(r), deserialize_rename_all: Some(r), ..acc }),
            Err(e) => Err(e),
        }
    } else {
        match list_value(arg, last) {
            Ok(items) => rename_all_items(items, 0, acc),
            Err(e) => Err(e),
        }
    }
}

/// `default` asks for `Default::default()`; `default = "path"` for a function.
pub open spec fn default_item(arg: MetaArg, last: bool, verdict: Option<Seq<char>>, acc: ContainerView) -> Result<ContainerView, (DeriveErrorKind, Seq<char>)> {
    if has_equals(arg) {
        match path_value(arg, last, verdict) {
            Ok(p) => Ok(ContainerView { default: DefaultView::Path(p), ..acc }),
            Err(e) => Err(e),
        }
    } else {
        match nothing_left(arg) {
            Ok(_) => Ok(ContainerView { default: DefaultView::Default, ..acc }),
            Err(e) => Err(e),
        }
    }
}

/// `into = "Type"`, refused when one was given before.
pub open spec fn into_item(arg: MetaArg, last: bool, verdict: Option<Seq<char>>, acc: ContainerView) -> Result<ContainerView, (DeriveErrorKind, Seq<char>)> {
    match type_value(arg, last, verdict) {
        Ok(t) => if acc.serialize_via is Direct {
            Ok(ContainerView { serialize_via: SerializeViaView::Into(t), ..acc })
        } else {
            Err(plain(DeriveErrorKind::DuplicateInto))
        },
        Err(e) => Err(e),
    }
}

/// `from = "Type"` (`try_from` when `fallible`), refused when either was given before.
pub open spec fn from_item(arg: MetaArg, last: bool, fallible: bool, verdict: Option<Seq<char>>, acc: ContainerView) -> Result<ContainerView, (DeriveErrorKind, Seq<char>)> {
    match type_value(arg, last, verdict) {
        Ok(t) => if acc.deserialize_via is Direct {
            Ok(ContainerView {
                deserialize_via: if fallible { DeserializeViaView::TryFrom(t) } else { DeserializeViaView::From(t) },
                ..acc
            })
        } else {
            Err(plain(DeriveErrorKind::DuplicateFrom))
        },
        Err(e) => Err(e),
    }
}

/// The remaining one-line items: `deny_unknown_fields`, `tag = "..."`, `expecting = "..."`,
/// `crate = "path"`.
pub open spec fn simple_item(path: Seq<String>, arg: MetaArg, last: bool, verdict: Option<Seq<char>>, acc: ContainerView) -> Result<ContainerView, (DeriveErrorKind, Seq<char>)> {
    if path_is(path, "deny_unknown_fields"@) {
        match nothing_left(arg) {
            Ok(_) => Ok(ContainerView { deny_unknown_fields: true, ..acc }),
            Err(e) => Err(e),
        }
    } else if path_is(path, "tag"@) {
        match str_value(arg, last) {
            Ok(s) => Ok(ContainerView { tag: Some(s), ..acc }),
            Err(e) => Err(e),
        }
    } else if path_is(path, "expecting"@) {
        match str_value(arg, last) {
            Ok(s) => Ok(ContainerView { expecting: Some(s), ..acc }),
            Err(e) => Err(e),
        }
    } else {
        match path_value(arg, last, verdict) {
            Ok(p) => Ok(ContainerView { serde_path: p, ..acc }),
            Err(e) => Err(e),
        }
    }
}

/// One item of a `serde(...)` list on a container; an item that none of the
/// supported keys names is refused.
pub open spec fn container_item(path: Seq<String>, arg: MetaArg, last: bool, verdict: Option<Seq<char>>, acc: ContainerView) -> Result<ContainerView, (DeriveErrorKind, Seq<char>)> {
    if path_is(path, "rename"@) {
        rename_item(arg, last, acc)
    } else if path_is(path, "rename_all"@) {
        rename_all_item(arg, last, acc)
    } else if path_is(path, "deny_unknown_fields"@) || path_is(path, "tag"@) || path_is(path, "crate"@)
        || path_is(path, "expecting"@) {
        simple_item(path, arg, last, verdict, acc)
    } else if path_is(path, "into"@) {
        into_item(arg, last, verdict, acc)
    } else if path_is(path, "default"@) {
        default_item(arg, last, verdict, acc)
    } else if path_is(path, "from"@) {
        from_item(arg, last, false, verdict, acc)
    } else if path_is(path, "try_from"@) {
        from_item(arg, last, true, verdict, acc)
    } else {
        Err((DeriveErrorKind::UnsupportedContainerAttribute, last_segment(path)))
    }
}

/// The items of one `serde(...)` list on a container, from index `k` on.
pub open spec fn container_items(items: Seq<MetaItem>, k: int, acc: ContainerView) -> Result<ContainerView, (DeriveErrorKind, Seq<char>)>
    decreases items.len() - k,
{
    if k < 0 || k >= items.len() {
        Ok(acc)
    } else {
        match items[k] {
            MetaItem::Malformed(m) => Err((DeriveErrorKind::Parse, m@)),
            MetaItem::Meta { path, arg, verdict } => match container_item(path@, arg, k == items.len() - 1, verdict_message(verdict), acc) {
                Ok(next) => container_items(items, k + 1, next),
                Err(e) => Err(e),
            },
        }
    }
}

/// Every `serde(...)` attribute of a container from index `k` on.
pub open spec fn container_attrs_from(attrs: Seq<Attribute>, k: int, acc: ContainerView) -> Result<ContainerView, (DeriveErrorKind, Seq<char>)>
    decreases attrs.len() - k,
{
    if k < 0 || k >= attrs.len() {
        Ok(acc)
    } else if !path_is(attrs[k].path@, "serde"@) {
        container_attrs_from(attrs, k + 1, acc)
    } else {
        match attrs[k].args {
            AttrArgs::NotList(m) => Err((DeriveErrorKind::Parse, m@)),
            AttrArgs::List(items) => match container_items(items@, 0, acc) {
                Ok(next) => container_attrs_from(attrs, k + 1, next),
                Err(e) => Err(e),
            },
        }
    }
}

/// The settings of the container named `ident` with the given attributes:
/// `prost_canonical_serde(...)` first (`transparent`, `rename_all`, `default`,
/// `deny_unknown_fields`), then the items of `serde(...)` in order.
pub open spec fn container_attrs_of(ident: Seq<char>, attrs: Seq<Attribute>) -> Result<ContainerView, (DeriveErrorKind, Seq<char>)> {
    match canonical_attrs_of(AttrPlace::Container, attrs) {
        Ok(c) => container_attrs_from(attrs, 0, initial_container(ident, c)),
        Err(e) => Err(e),
    }
}

fn read_rule_value(arg: &MetaArg, last: bool) -> (r: Result<RenameRule, DeriveError>)
    ensures
        match r {
            Ok(rule) => rule_value(*arg, last) == Ok::<RenameRule, (DeriveErrorKind, Seq<char>)>(rule),
            Err(e) => rule_value(*arg, last) == Err::<RenameRule, _>(err_view(e)),
        },
{
    match read_str_value(arg, last) {
        Ok(s) => match RenameRule::parse(s.as_str()) {
            Ok(rule) => Ok(rule),
            Err(e) => Err(e),
        },
        Err(e) => Err(e),
    }
}

fn read_path_value(arg: &MetaArg, last: bool, verdict: &Option<String>) -> (r: Result<String, DeriveError>)
    ensures
        match r {
            Ok(p) => path_value(*arg, last, opt_view(*verdict)) == Ok::<Seq<char>, (DeriveErrorKind, Seq<char>)>(p@),
            Err(e) => path_value(*arg, last, opt_view(*verdict)) == Err::<Seq<char>, _>(err_view(e)),
        },
{
    match read_str_value(arg, last) {
        Ok(s) => match verdict {
            None => Ok(s),
            Some(m) => Err(parse_error(m)),
        },
        Err(e) => Err(e),
    }
}

fn read_type_value(arg: &MetaArg, last: bool, verdict: &Option<String>) -> (r: Result<String, DeriveError>)
    ensures
        match r {
            Ok(t) => type_value(*arg, last, opt_view(*verdict)) == Ok::<Seq<char>, (DeriveErrorKind, Seq<char>)>(t@),
            Err(e) => type_value(*arg, last, opt_view(*verdict)) == Err::<Seq<char>, _>(err_view(e)),
        },
{
    match read_str_value(arg, last) {
        Ok(s) => match verdict {
            None => Ok(s),
            Some(m) => Err(parse_error(m)),
        },
        Err(e) => Err(e),
    }
}

fn rename_list(items: &Vec<MetaItem>, init: ContainerAttrs) -> (r: Result<ContainerAttrs, DeriveError>)
    ensures
        match r {
            Ok(a) => rename_items(items@, 0, init@) == Ok::<ContainerView, (DeriveErrorKind, Seq<char>)>(a@),
            Err(e) => rename_items(items@, 0, init@) == Err::<ContainerView, _>(err_view(e)),
        },
{
    let mut acc = init;
    let ghost start = acc@;
    let mut k: usize = 0;
    while k < items.len()
        invariant
            k <= items.len(),
            start == init@,
            rename_items(items@, k as int, acc@) == rename_items(items@, 0, start),
        decreases items.len() - k,
    {
        let last = k + 1 == items.len();
        match &items[k] {
            MetaItem::Malformed(m) => {
                return Err(parse_error(m));
            },
            MetaItem::Meta { path, arg, .. } => {
                if path_is_ident(path, "serialize") {
                    match read_str_value(arg, last) {
                        Ok(s) => { acc.serialize_name = s; },
                        Err(e) => { return Err(e); },
                    }
                } else if path_is_ident(path, "deserialize") {
                    match read_str_value(arg, last) {
                        Ok(s) => { acc.deserialize_name = s; },
                        Err(e) => { return Err(e); },
                    }
                } else {
                    match check_nothing_left(arg) {
                        Ok(_) => {},
                        Err(e) => { return Err(e); },
                    }
                }
            },
        }
        k = k + 1;
    }
    Ok(acc)
}

fn rename_all_list(items: &Vec<MetaItem>, init: ContainerAttrs) -> (r: Result<ContainerAttrs, DeriveError>)
    ensures
        match r {
            Ok(a) => rename_all_items(items@, 0, init@) == Ok::<ContainerView, (DeriveErrorKind, Seq<char>)>(a@),
            Err(e) => rename_all_items(items@, 0, init@) == Err::<ContainerView, _>(err_view(e)),
        },
{
    let mut acc = init;
    let ghost start = acc@;
    let mut k: usize = 0;
    while k < items.len()
        invariant
            k <= items.len(),
            start == init@,
            rename_all_items(items@, k as int, acc@) == rename_all_items(items@, 0, start),
        decreases items.len() - k,
    {
        let last = k + 1 == items.len();
        match &items[k] {
            MetaItem::Malformed(m) => {
                return Err(parse_error(m));
            },
            MetaItem::Meta { path, arg, .. } => {
                if path_is_ident(path, "serialize") {
                    match read_rule_value(arg, last) {
                        Ok(rule) => { acc.serialize_rename_all = Some(rule); },
                        Err(e) => { return Err(e); },
                    }
                } else if path_is_ident(path, "deserialize") {
                    match read_rule_value(arg, last) {
                        Ok(rule) => { acc.deserialize_rename_all = Some(rule); },
                        Err(e) => { return Err(e); },
                    }
                } else {
                    match check_nothing_left(arg) {
                        Ok(_) => {},
                        Err(e) => { return Err(e); },
                    }
                }
            },
        }
        k = k + 1;
    }
    Ok(acc)
}

/// The error for an item that a container's `serde(...)` does not support.
pub fn unsupported_serde_container_attr(path: &Vec<String>) -> (e: DeriveError)
    ensures
        err_view(e) == (DeriveErrorKind::UnsupportedContainerAttribute, last_segment(path@)),
{
    let name = if path.len() == 0 {
        string_of("attribute")
    } else {
        path[path.len() - 1].clone()
    };
    proof { reveal_strlit("attribute"); }
    DeriveError::with_detail(DeriveErrorKind::UnsupportedContainerAttribute, name)
}

/// Sets `serde(into = ...)`; a second one is refused.
pub fn set_serialize_via(slot: &mut SerializeVia, value: SerializeVia) -> (r: Result<(), DeriveError>)
    ensures
        match r {
            Ok(_) => old(slot)@ is Direct && final(slot)@ == value@,
            Err(e) => !(old(slot)@ is Direct) && err_view(e) == plain(DeriveErrorKind::DuplicateInto)
                && final(slot)@ == old(slot)@,
        },
{
    if !matches!(slot, SerializeVia::Direct) {
        return Err(DeriveError::new(DeriveErrorKind::DuplicateInto));
    }
    *slot = value;
    Ok(())
}

/// Sets `serde(from = ...)` or `serde(try_from = ...)`; a second one is refused.
pub fn set_deserialize_via(slot: &mut DeserializeVia, value: DeserializeVia) -> (r: Result<(), DeriveError>)
    ensures
        match r {
            Ok(_) => old(slot)@ is Direct && final(slot)@ == value@,
            Err(e) => !(old(slot)@ is Direct) && err_view(e) == plain(DeriveErrorKind::DuplicateFrom)
                && final(slot)@ == old(slot)@,
        },
{
    if !matches!(slot, DeserializeVia::Direct) {
        return Err(DeriveError::new(DeriveErrorKind::DuplicateFrom));
    }
    *slot = value;
    Ok(())
}

fn rename_step(arg: &MetaArg, last: bool, init: ContainerAttrs) -> (r: Result<ContainerAttrs, DeriveError>)
    ensures
        match r {
            Ok(a) => rename_item(*arg, last, init@) == Ok::<ContainerView, (DeriveErrorKind, Seq<char>)>(a@),
            Err(e) => rename_item(*arg, last, init@) == Err::<ContainerView, _>(err_view(e)),
        },
{
    let mut acc = init;
    if arg_has_equals(arg) {
        match read_str_value(arg, last) {
            Ok(s) => {
                acc.serialize_name = s.clone();
                acc.deserialize_name = s;
                Ok(acc)
            },
            Err(e) => Err(e),
        }
    } else {
        match arg {
            MetaArg::List(items) => rename_list(items, acc),
            MetaArg::Bare => Err(missing_error(Expected::Parentheses, last)),
            _ => Err(missing_error(Expected::Parentheses, false)),
        }
    }
}

fn rename_all_step(arg: &MetaArg, last: bool, init: ContainerAttrs) -> (r: Result<ContainerAttrs, DeriveError>)
    ensures
        match r {
            Ok(a) => rename_all_item(*arg, last, init@) == Ok::<ContainerView, (DeriveErrorKind, Seq<char>)>(a@),
            Err(e) => rename_all_item(*arg, last, init@) == Err::<ContainerView, _>(err_view(e)),
        },
{
    let mut acc = init;
    if arg_has_equals(arg) {
        match read_rule_value(arg, last) {
            Ok(rule) => {
                acc.serialize_rename_all = Some(rule);
                acc.deserialize_rename_all = Some(rule);
                Ok(acc)
            },
            Err(e) => Err(e),
        }
    } else {
        match arg {
            MetaArg::List(items) => rename_all_list(items, acc),
            MetaArg::Bare => Err(missing_error(Expected::Parentheses, last)),
            _ => Err(missing_error(Expected::Parentheses, false)),
        }
    }
}

fn default_step(arg: &MetaArg, last: bool, verdict: &Option<String>, init: ContainerAttrs) -> (r: Result<ContainerAttrs, DeriveError>)
    ensures
        match r {
            Ok(a) => default_item(*arg, last, opt_view(*verdict), init@) == Ok::<ContainerView, (DeriveErrorKind, Seq<char>)>(a@),
            Err(e) => default_item(*arg, last, opt_view(*verdict), init@) == Err::<ContainerView, _>(err_view(e)),
        },
{
    let mut acc = init;
    if arg_has_equals(arg) {
        match read_path_value(arg, last, verdict) {
            Ok(p) => {
                acc.default = ContainerDefault::Path(p);
                Ok(acc)
            },
            Err(e) => Err(e),
        }
    } else {
        match check_nothing_left(arg) {
            Ok(_) => {
                acc.default = ContainerDefault::Default;
                Ok(acc)
            },
            Err(e) => Err(e),
        }
    }
}

fn into_step(arg: &MetaArg, last: bool, verdict: &Option<String>, init: ContainerAttrs) -> (r: Result<ContainerAttrs, DeriveError>)
    ensures
        match r {
            Ok(a) => into_item(*arg, last, opt_view(*verdict), init@) == Ok::<ContainerView, (DeriveErrorKind, Seq<char>)>(a@),
            Err(e) => into_item(*arg, last, opt_view(*verdict), init@) == Err::<ContainerView, _>(err_view(e)),
        },
{
    let mut acc = init;
    match read_type_value(arg, last, verdict) {
        Ok(t) => match set_serialize_via(&mut acc.serialize_via, SerializeVia::Into(t)) {
            Ok(_) => Ok(acc),
            Err(e) => Err(e),
        },
        Err(e) => Err(e),
    }
}

fn from_step(arg: &MetaArg, last: bool, fallible: bool, verdict: &Option<String>, init: ContainerAttrs) -> (r: Result<ContainerAttrs, DeriveError>)
    ensures
        match r {
            Ok(a) => from_item(*arg, last, fallible, opt_view(*verdict), init@) == Ok::<ContainerView, (DeriveErrorKind, Seq<char>)>(a@),
            Err(e) => from_item(*arg, last, fallible, opt_view(*verdict), init@) == Err::<ContainerView, _>(err_view(e)),
        },
{
    let mut acc = init;
    match read_type_value(arg, last, verdict) {
        Ok(t) => {
            let via = if fallible { DeserializeVia::TryFrom(t) } else { DeserializeVia::From(t) };
            match set_deserialize_via(&mut acc.deserialize_via, via) {
                Ok(_) => Ok(acc),
                Err(e) => Err(e),
            }
        },
        Err(e) => Err(e),
    }
}

fn simple_step(path: &Vec<String>, arg: &MetaArg, last: bool, verdict: &Option<String>, init: ContainerAttrs) -> (r: Result<ContainerAttrs, DeriveError>)
    ensures
        match r {
            Ok(a) => simple_item(path@, *arg, last, opt_view(*verdict), init@) == Ok::<ContainerView, (DeriveErrorKind, Seq<char>)>(a@),
            Err(e) => simple_item(path@, *arg, last, opt_view(*verdict), init@) == Err::<ContainerView, _>(err_view(e)),
        },
{
    let mut acc = init;
    if path_is_ident(path, "deny_unknown_fields") {
        match check_nothing_left(arg) {
            Ok(_) => {
                acc.deny_unknown_fields = true;
                Ok(acc)
            },
            Err(e) => Err(e),
        }
    } else if path_is_ident(path, "tag") {
        match read_str_value(arg, last) {
            Ok(s) => {
                acc.tag = Some(s);
                Ok(acc)
            },
            Err(e) => Err(e),
        }
    } else if path_is_ident(path, "expecting") {
        match read_str_value(arg, last) {
            Ok(s) => {
                acc.expecting = Some(s);
                Ok(acc)
            },
            Err(e) => Err(e),
        }
    } else {
        match read_path_value(arg, last, verdict) {
            Ok(p) => {
                acc.serde_path = p;
                Ok(acc)
            },
            Err(e) => Err(e),
        }
    }
}

fn container_step(path: &Vec<String>, arg: &MetaArg, last: bool, verdict: &Option<String>, init: ContainerAttrs) -> (r: Result<ContainerAttrs, DeriveError>)
    ensures
        match r {
            Ok(a) => container_item(path@, *arg, last, opt_view(*verdict), init@) == Ok::<ContainerView, (DeriveErrorKind, Seq<char>)>(a@),
            Err(e) => container_item(path@, *arg, last, opt_view(*verdict), init@) == Err::<ContainerView, _>(err_view(e)),
        },
{
    if path_is_ident(path, "rename") {
        rename_step(arg, last, init)
    } else if path_is_ident(path, "rename_all") {
        rename_all_step(arg, last, init)
    } else if path_is_ident(path, "deny_unknown_fields") || path_is_ident(path, "tag")
        || path_is_ident(path, "crate") || path_is_ident(path, "expecting") {
        simple_step(path, arg, last, verdict, init)
    } else if path_is_ident(path, "into") {
        into_step(arg, last, verdict, init)
    } else if path_is_ident(path, "default") {
        default_step(arg, last, verdict, init)
    } else if path_is_ident(path, "from") {
        from_step(arg, last, false, verdict, init)
    } else if path_is_ident(path, "try_from") {
        from_step(arg, last, true, verdict, init)
    } else {
        Err(unsupported_serde_container_attr(path))
    }
}

fn container_list(items: &Vec<MetaItem>, init: ContainerAttrs) -> (r: Result<ContainerAttrs, DeriveError>)
    ensures
        match r {
            Ok(a) => container_items(items@, 0, init@) == Ok::<ContainerView, (DeriveErrorKind, Seq<char>)>(a@),
            Err(e) => container_items(items@, 0, init@) == Err::<ContainerView, _>(err_view(e)),
        },
{
    let mut acc = init;
    let ghost start = acc@;
    let mut k: usize = 0;
    while k < items.len()
        invariant
            k <= items.len(),
            start == init@,
            container_items(items@, k as int, acc@) == container_items(items@, 0, start),
        decreases items.len() - k,
    {
        let last = k + 1 == items.len();
        match &items[k] {
            MetaItem::Malformed(m) => {
                return Err(parse_error(m));
            },
            MetaItem::Meta { path, arg, verdict } => {
                match container_step(path, arg, last, &message_of(verdict), acc) {
                    Ok(next) => { acc = next; },
                    Err(e) => { return Err(e); },
                }
            },
        }
        k = k + 1;
    }
    Ok(acc)
}

/// Reads the settings of the container named `ident` from its attributes.
pub fn parse_container_attrs(ident: &str, attrs: &Vec<Attribute>) -> (r: Result<ContainerAttrs, DeriveError>)
    ensures
        match r {
            Ok(a) => container_attrs_of(ident@, attrs@) == Ok::<ContainerView, (DeriveErrorKind, Seq<char>)>(a@),
            Err(e) => container_attrs_of(ident@, attrs@) == Err::<ContainerView, _>(err_view(e)),
        },
{
    let canonical = match parse_canonical_attrs(AttrPlace::Container, attrs) {
        Ok(c) => c,
        Err(e) => { return Err(e); },
    };
    let ghost cv = canonical@;
    let mut container = ContainerAttrs {
        transparent: canonical.transparent,
        serialize_name: string_of(ident),
        deserialize_name: string_of(ident),
        serialize_rename_all: canonical.rename_all_serialize,
        deserialize_rename_all: canonical.rename_all_deserialize,
        serde_path: string_of("::serde"),
        serialize_via: SerializeVia::Direct,
        deserialize_via: DeserializeVia::Direct,
        deny_unknown_fields: canonical.deny_unknown_fields,
        tag: None,
        expecting: None,
        default: canonical.default,
    };
    assert(container@ == initial_container(ident@, cv));
    let mut k: usize = 0;
    while k < attrs.len()
        invariant
            k <= attrs.len(),
            canonical_attrs_of(AttrPlace::Container, attrs@) == Ok::<CanonicalView, (DeriveErrorKind, Seq<char>)>(cv),
            container_attrs_from(attrs@, k as int, container@) == container_attrs_of(ident@, attrs@),
        decreases attrs.len() - k,
    {
        let attr = &attrs[k];
        if path_is_ident(&attr.path, "serde") {
            match &attr.args {
                AttrArgs::NotList(m) => {
                    return Err(parse_error(m));
                },
                AttrArgs::List(items) => {
                    match container_list(items, container) {
                        Ok(next) => { container = next; },
                        Err(e) => { return Err(e); },
                    }
                },
            }
        }
        k = k + 1;
    }
    Ok(container)
}

/// `char::is_whitespace`: the Unicode `White_Space` property.
pub open spec fn is_white_space(c: char) -> bool {
    ||| ('\u{9}' <= c && c <= '\u{d}')
    ||| c == ' '
    ||| c == '\u{85}'
    ||| c == '\u{a0}'
    ||| c == '\u{1680}'
    ||| ('\u{2000}' <= c && c <= '\u{200a}')
    ||| c == '\u{2028}'
    ||| c == '\u{2029}'
    ||| c == '\u{202f}'
    ||| c == '\u{205f}'
    ||| c == '\u{3000}'
}

fn char_is_white_space(c: char) -> (r: bool)
    ensures
        r == is_white_space(c),
{
    ('\u{9}' <= c && c <= '\u{d}') || c == ' ' || c == '\u{85}' || c == '\u{a0}' || c == '\u{1680}'
        || ('\u{2000}' <= c && c <= '\u{200a}') || c == '\u{2028}' || c == '\u{2029}'
        || c == '\u{202f}' || c == '\u{205f}' || c == '\u{3000}'
}

/// `s` without its leading white space.
pub open spec fn trim_start(s: Seq<char>) -> Seq<char>
    decreases s.len(),
{
    if s.len() > 0 && is_white_space(s[0]) {
        trim_start(s.drop_first())
    } else {
        s
    }
}

/// `s` without its trailing white space.
pub open spec fn trim_end(s: Seq<char>) -> Seq<char>
    decreases s.len(),
{
    if s.len() > 0 && is_white_space(s.last()) {
        trim_end(s.drop_last())
    } else {
        s
    }
}

/// `str::trim`: `s` without leading and trailing white space.
pub open spec fn trimmed(s: Seq<char>) -> Seq<char> {
    trim_end(trim_start(s))
}

/// Whether `needle` occurs in `s` at index `i`.
pub open spec fn occurs_at(s: Seq<char>, needle: Seq<char>, i: int) -> bool {
    0 <= i && i + needle.len() <= s.len() && s.subrange(i, i + needle.len()) == needle
}

/// The first index at or after `i` where `needle` occurs in `s`.
pub open spec fn find_from(s: Seq<char>, needle: Seq<char>, i: int) -> Option<int>
    decreases s.len() + 1 - i,
{
    if i < 0 || i + needle.len() > s.len() {
        None
    } else if occurs_at(s, needle, i) {
        Some(i)
    } else {
        find_from(s, needle, i + 1)
    }
}

/// The enum path inside `enumeration(...)` in a prost map type such as
/// `"int32, enumeration(Status)"`: none when there is no `enumeration(` or
/// only white space inside it; an error when no `)` follows or the text is
/// not a path.
pub open spec fn map_enum_path(value: Seq<char>, verdict: Option<Seq<char>>) -> Result<Option<Seq<char>>, (DeriveErrorKind, Seq<char>)> {
    match find_from(value, "enumeration("@, 0) {
        None => Ok(None),
        Some(idx) => {
            let start = idx + 12;
            match find_from(value, seq![')'], start) {
                None => Err(plain(DeriveErrorKind::InvalidMapEnum)),
                Some(close) => {
                    let path = trimmed(value.subrange(start, close));
                    if path.len() == 0 {
                        Ok(None)
                    } else {
                        match verdict {
                            None => Ok(Some(path)),
                            Some(m) => Err((DeriveErrorKind::Parse, m)),
                        }
                    }
                },
            }
        },
    }
}

proof fn lemma_find_from_occurs(s: Seq<char>, needle: Seq<char>, i: int)
    ensures
        find_from(s, needle, i) matches Some(j) ==> occurs_at(s, needle, j) && i <= j,
    decreases s.len() + 1 - i,
{
    if i < 0 || i + needle.len() > s.len() {
    } else if occurs_at(s, needle, i) {
    } else {
        lemma_find_from_occurs(s, needle, i + 1);
    }
}

fn find_chars(s: &Vec<char>, needle: &Vec<char>, from: usize) -> (r: Option<usize>)
    requires
        from <= s.len(),
        needle.len() > 0,
    ensures
        match find_from(s@, needle@, from as int) {
            None => r is None,
            Some(i) => r matches Some(x) && x as int == i,
        },
{
    let mut i = from;
    while i < s.len() && needle.len() <= s.len() - i
        invariant
            from <= i <= s.len(),
            find_from(s@, needle@, i as int) == find_from(s@, needle@, from as int),
        decreases s.len() - i,
    {
        let mut j: usize = 0;
        let mut same = true;
        assert(s@.subrange(i as int, i as int) =~= needle@.subrange(0, 0));
        while j < needle.len()
            invariant
                i + needle.len() <= s.len(),
                j <= needle.len(),
                same == (s@.subrange(i as int, i + j) == needle@.subrange(0, j as int)),
            decreases needle.len() - j,
        {
            if s[i + j] != needle[j] {
                same = false;
            }
            proof {
                if same {
                    assert(s@.subrange(i as int, i + j + 1) =~= s@.subrange(i as int, i + j).push(s@[i + j]));
                    assert(needle@.subrange(0, j + 1) =~= needle@.subrange(0, j as int).push(needle@[j as int]));
                } else {
                    if s@.subrange(i as int, i + j + 1) == needle@.subrange(0, j + 1) {
                        if s@[i + j] != needle@[j as int] {
                            assert(s@.subrange(i as int, i + j + 1)[j as int] == needle@.subrange(0, j + 1)[j as int]);
                        } else {
                            assert(s@.subrange(i as int, i + j) =~= s@.subrange(i as int, i + j + 1).subrange(0, j as int));
                            assert(needle@.subrange(0, j as int) =~= needle@.subrange(0, j + 1).subrange(0, j as int));
                        }
                    }
                }
            }
            j = j + 1;
        }
        assert(needle@.subrange(0, needle.len() as int) =~= needle@);
        if same {
            return Some(i);
        }
        i = i + 1;
    }
    None
}

/// Trims white space off both ends of the chars.
fn trim_chars(s: &Vec<char>, from: usize, to: usize) -> (r: Vec<char>)
    requires
        from <= to <= s.len(),
    ensures
        r@ == trimmed(s@.subrange(from as int, to as int)),
{
    let mut a = from;
    while a < to && char_is_white_space(s[a])
        invariant
            from <= a <= to <= s.len(),
            trim_start(s@.subrange(a as int, to as int)) == trim_start(s@.subrange(from as int, to as int)),
        decreases to - a,
    {
        assert(s@.subrange(a as int, to as int).drop_first() =~= s@.subrange(a + 1, to as int));
        a = a + 1;
    }
    let mut b = to;
    while b > a && char_is_white_space(s[b - 1])
        invariant
            a <= b <= to <= s.len(),
            trim_end(s@.subrange(a as int, b as int)) == trim_end(s@.subrange(a as int, to as int)),
        decreases b - a,
    {
        assert(s@.subrange(a as int, b as int).drop_last() =~= s@.subrange(a as int, b - 1));
        b = b - 1;
    }
    let mut r: Vec<char> = Vec::new();
    let mut k = a;
    while k < b
        invariant
            a <= k <= b <= s.len(),
            r@ == s@.subrange(a as int, k as int),
        decreases b - k,
    {
        r.push(s[k]);
        k = k + 1;
        assert(r@ =~= s@.subrange(a as int, k as int));
    }
    r
}

/// Reads the enum path inside `enumeration(...)` of a prost map type.
pub fn parse_enum_path_from_map(value: &str, verdict: &Option<String>) -> (r: Result<Option<String>, DeriveError>)
    ensures
        match r {
            Ok(Some(p)) => map_enum_path(value@, opt_view(*verdict)) == Ok::<Option<Seq<char>>, (DeriveErrorKind, Seq<char>)>(Some(p@)),
            Ok(None) => map_enum_path(value@, opt_view(*verdict)) == Ok::<Option<Seq<char>>, (DeriveErrorKind, Seq<char>)>(None),
            Err(e) => map_enum_path(value@, opt_view(*verdict)) == Err::<Option<Seq<char>>, _>(err_view(e)),
        },
{
    let chars = chars_of(value);
    let needle = chars_of("enumeration(");
    proof {
        reveal_strlit("enumeration(");
    }
    assert(needle@.len() == 12);
    let idx = match find_chars(&chars, &needle, 0) {
        None => { return Ok(None); },
        Some(i) => i,
    };
    proof {
        lemma_find_from_occurs(chars@, needle@, 0);
    }
    let start = idx + 12;
    let mut close_needle: Vec<char> = Vec::new();
    close_needle.push(')');
    assert(close_needle@ =~= seq![')']);
    let close = match find_chars(&chars, &close_needle, start) {
        None => { return Err(DeriveError::new(DeriveErrorKind::InvalidMapEnum)); },
        Some(c) => c,
    };
    proof {
        lemma_find_from_occurs(chars@, close_needle@, start as int);
    }
    let path = trim_chars(&chars, start, close);
    if path.len() == 0 {
        return Ok(None);
    }
    let text = string_from_chars(&path);
    match verdict {
        None => Ok(Some(text)),
        Some(m) => Err(parse_error(m)),
    }
}

/// What `prost(...)` says of a field or variant: whether it is a oneof, and
/// the enum path of an enumeration (or of a map's enumeration values), as written.
pub struct ProstAttrs {
    pub is_oneof: bool,
    pub enum_path: Option<String>,
}

/// [`ProstAttrs`] as plain values.
pub struct ProstView {
    pub is_oneof: bool,
    pub enum_path: Option<Seq<char>>,
}

impl View for ProstAttrs {
    type V = ProstView;

    open spec fn view(&self) -> ProstView {
        ProstView { is_oneof: self.is_oneof, enum_path: opt_view(self.enum_path) }
    }
}

/// Whether the path names one of prost's map kinds.
pub open spec fn is_map_key(path: Seq<String>) -> bool {
    path_is(path, "btree_map"@) || path_is(path, "map"@) || path_is(path, "hash_map"@)
}

/// One item of a `prost(...)` list: `oneof` marks a oneof (its value, if any,
/// must be a literal); `enumeration = "Path"` and the enumeration inside a map
/// type give the enum path; any other item is passed over, its value, if any,
/// must be a literal.
pub open spec fn prost_item(path: Seq<String>, arg: MetaArg, last: bool, verdict: Option<Seq<char>>, acc: ProstView) -> Result<ProstView, (DeriveErrorKind, Seq<char>)> {
    if path_is(path, "oneof"@) {
        let read = if has_equals(arg) { lit_value(arg, last) } else { nothing_left(arg) };
        match read {
            Ok(_) => Ok(ProstView { is_oneof: true, ..acc }),
            Err(e) => Err(e),
        }
    } else if path_is(path, "enumeration"@) {
        match path_value(arg, last, verdict) {
            Ok(p) => Ok(ProstView { enum_path: Some(p), ..acc }),
            Err(e) => Err(e),
        }
    } else if is_map_key(path) {
        match str_value(arg, last) {
            Ok(s) => match map_enum_path(s, verdict) {
                Ok(Some(p)) => Ok(ProstView { enum_path: Some(p), ..acc }),
                Ok(None) => Ok(acc),
                Err(e) => Err(e),
            },
            Err(e) => Err(e),
        }
    } else {
        let read = if has_equals(arg) { lit_value(arg, last) } else { nothing_left(arg) };
        match read {
            Ok(_) => Ok(acc),
            Err(e) => Err(e),
        }
    }
}

/// The items of one `prost(...)` list from index `k` on.
pub open spec fn prost_items(items: Seq<MetaItem>, k: int, acc: ProstView) -> Result<ProstView, (DeriveErrorKind, Seq<char>)>
    decreases items.len() - k,
{
    if k < 0 || k >= items.len() {
        Ok(acc)
    } else {
        match items[k] {
            MetaItem::Malformed(m) => Err((DeriveErrorKind::Parse, m@)),
            MetaItem::Meta { path, arg, verdict } => match prost_item(path@, arg, k == items.len() - 1, verdict_message(verdict), acc) {
                Ok(next) => prost_items(items, k + 1, next),
                Err(e) => Err(e),
            },
        }
    }
}

/// Every `prost(...)` attribute from index `k` on.
pub open spec fn prost_attrs_from(attrs: Seq<Attribute>, k: int, acc: ProstView) -> Result<ProstView, (DeriveErrorKind, Seq<char>)>
    decreases attrs.len() - k,
{
    if k < 0 || k >= attrs.len() {
        Ok(acc)
    } else if !path_is(attrs[k].path@, "prost"@) {
        prost_attrs_from(attrs, k + 1, acc)
    } else {
        match attrs[k].args {
            AttrArgs::NotList(m) => Err((DeriveErrorKind::Parse, m@)),
            AttrArgs::List(items) => match prost_items(items@, 0, acc) {
                Ok(next) => prost_attrs_from(attrs, k + 1, next),
                Err(e) => Err(e),
            },
        }
    }
}

/// What the `prost(...)` attributes of a field or variant say.
pub open spec fn prost_attrs_of(attrs: Seq<Attribute>) -> Result<ProstView, (DeriveErrorKind, Seq<char>)> {
    prost_attrs_from(attrs, 0, ProstView { is_oneof: false, enum_path: None })
}

fn prost_step(path: &Vec<String>, arg: &MetaArg, last: bool, verdict: &Option<String>, init: ProstAttrs) -> (r: Result<ProstAttrs, DeriveError>)
    ensures
        match r {
            Ok(a) => prost_item(path@, *arg, last, opt_view(*verdict), init@) == Ok::<ProstView, (DeriveErrorKind, Seq<char>)>(a@),
            Err(e) => prost_item(path@, *arg, last, opt_view(*verdict), init@) == Err::<ProstView, _>(err_view(e)),
        },
{
    let mut acc = init;
    if path_is_ident(path, "oneof") {
        let read = if arg_has_equals(arg) { read_lit_value(arg, last) } else { check_nothing_left(arg) };
        match read {
            Ok(_) => {
                acc.is_oneof = true;
                Ok(acc)
            },
            Err(e) => Err(e),
        }
    } else if path_is_ident(path, "enumeration") {
        match read_path_value(arg, last, verdict) {
            Ok(p) => {
                acc.enum_path = Some(p);
                Ok(acc)
            },
            Err(e) => Err(e),
        }
    } else if path_is_ident(path, "btree_map") || path_is_ident(path, "map") || path_is_ident(path, "hash_map") {
        match read_str_value(arg, last) {
            Ok(s) => match parse_enum_path_from_map(s.as_str(), verdict) {
                Ok(Some(p)) => {
                    acc.enum_path = Some(p);
                    Ok(acc)
                },
                Ok(None) => Ok(acc),
                Err(e) => Err(e),
            },
            Err(e) => Err(e),
        }
    } else {
        let read = if arg_has_equals(arg) { read_lit_value(arg, last) } else { check_nothing_left(arg) };
        match read {
            Ok(_) => Ok(acc),
            Err(e) => Err(e),
        }
    }
}

fn prost_list(items: &Vec<MetaItem>, init: ProstAttrs) -> (r: Result<ProstAttrs, DeriveError>)
    ensures
        match r {
            Ok(a) => prost_items(items@, 0, init@) == Ok::<ProstView, (DeriveErrorKind, Seq<char>)>(a@),
            Err(e) => prost_items(items@, 0, init@) == Err::<ProstView, _>(err_view(e)),
        },
{
    let mut acc = init;
    let ghost start = acc@;
    let mut j: usize = 0;
    while j < items.len()
        invariant
            j <= items.len(),
            start == init@,
            prost_items(items@, j as int, acc@) == prost_items(items@, 0, start),
        decreases items.len() - j,
    {
        let last = j + 1 == items.len();
        match &items[j] {
            MetaItem::Malformed(m) => {
                return Err(parse_error(m));
            },
            MetaItem::Meta { path, arg, verdict } => {
                match prost_step(path, arg, last, &message_of(verdict), acc) {
                    Ok(next) => { acc = next; },
                    Err(e) => { return Err(e); },
                }
            },
        }
        j = j + 1;
    }
    Ok(acc)
}

/// Reads the `prost(...)` attributes of a field or variant.
pub fn parse_prost_attrs(attrs: &Vec<Attribute>) -> (r: Result<ProstAttrs, DeriveError>)
    ensures
        match r {
            Ok(a) => prost_attrs_of(attrs@) == Ok::<ProstView, (DeriveErrorKind, Seq<char>)>(a@),
            Err(e) => prost_attrs_of(attrs@) == Err::<ProstView, _>(err_view(e)),
        },
{
    let mut acc = ProstAttrs { is_oneof: false, enum_path: None };
    let mut k: usize = 0;
    while k < attrs.len()
        invariant
            k <= attrs.len(),
            prost_attrs_from(attrs@, k as int, acc@) == prost_attrs_of(attrs@),
        decreases attrs.len() - k,
    {
        let attr = &attrs[k];
        if path_is_ident(&attr.path, "prost") {
            match &attr.args {
                AttrArgs::NotList(m) => {
                    return Err(parse_error(m));
                },
                AttrArgs::List(items) => {
                    match prost_list(items, acc) {
                        Ok(next) => { acc = next; },
                        Err(e) => { return Err(e); },
                    }
                },
            }
        }
        k = k + 1;
    }
    Ok(acc)
}

} // verus!
