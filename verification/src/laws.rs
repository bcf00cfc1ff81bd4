//! What holds of the derive across its inputs and functions.
use vstd::prelude::*;
use crate::attrs::{canonical_attrs_of, AttrPlace, ContainerView};
use crate::error::DeriveErrorKind;
use crate::field::{field_info_of, FieldView};
use crate::input::{FieldInput, FieldsInput};
use crate::meta::Attribute;
use crate::naming::{is_separator, joined, renamed, split_state, starts_word, words_of, RenameRule};
use crate::plan::{
    deserialize_entry_of, deserialize_struct_of, map_all, match_arm_of, serialize_entry_of,
    serialize_struct_of, DeserializeEntry, DeserializeMode, FieldRole, MatchArm, SerializeEntry,
    SerializeMode,
};
use crate::shape::{check_of, count_rule_of, serialize_plan_of, CountRule, DefaultCheck, SerializeFieldPlan};
use crate::text::{is_lower, is_upper, lower_char};
use crate::types::{generic_arg, kind_of, lemma_generic_arg_smaller, lemma_map_types_smaller, map_types, message_like, with_enum, Kind, ScalarKind, TypeRepr};
use crate::plan::{variant_info_of, variant_value_of, VariantView};
use crate::variants::{enum_variant_plan_of, oneof_variant_plan_of, EnumWriteView, OneofVariantPlanView};
use crate::plan::EnumVariantView;
use crate::dispatch::{unknown_key_of, UnknownKey, field_counts, field_writes, group_route, group_routes, in_group, routes_of, writes_of, KeyRoute, RouteGroup, WriteStep};
use crate::input::VariantInput;

verus! {

/// A word as `split_words` makes it: not empty, no separator, no ASCII capital.
pub open spec fn clean_word(w: Seq<char>) -> bool {
    &&& w.len() > 0
    &&& forall|i: int| 0 <= i < w.len() ==> !is_separator(#[trigger] w[i]) && !is_upper(w[i])
}

proof fn lemma_lower_not_upper(c: char)
    ensures
        !is_upper(lower_char(c)),
        !is_separator(c) ==> !is_separator(lower_char(c)),
{
}

proof fn lemma_split_state_clean(chars: Seq<char>, i: nat)
    requires
        i <= chars.len(),
    ensures
        forall|k: int| 0 <= k < split_state(chars, i).0.len() ==> clean_word(#[trigger] split_state(chars, i).0[k]),
        forall|k: int| 0 <= k < split_state(chars, i).1.len() ==> !is_separator(#[trigger] split_state(chars, i).1[k]) && !is_upper(split_state(chars, i).1[k]),
    decreases i,
{
    if i > 0 {
        lemma_split_state_clean(chars, (i - 1) as nat);
        let ch = chars[i - 1];
        lemma_lower_not_upper(ch);
        let (words, cur) = split_state(chars, (i - 1) as nat);
        if !is_separator(ch) {
            let cur2 = cur.push(lower_char(ch));
            assert forall|k: int| 0 <= k < cur2.len() implies !is_separator(#[trigger] cur2[k]) && !is_upper(cur2[k]) by {
                if k < cur.len() {
                    assert(cur2[k] == cur[k]);
                }
            }
            let one = seq![lower_char(ch)];
            assert forall|k: int| 0 <= k < one.len() implies !is_separator(#[trigger] one[k]) && !is_upper(one[k]) by {}
        }
        if cur.len() > 0 {
            assert(clean_word(cur));
            let w2 = words.push(cur);
            assert forall|k: int| 0 <= k < w2.len() implies clean_word(#[trigger] w2[k]) by {
                if k < words.len() {
                    assert(w2[k] == words[k]);
                }
            }
        }
    }
}

/// The words of an identifier are never empty and hold no `_`, `-` or ASCII
/// capital: every rename rule builds names from lowercase words.
pub proof fn law_words_are_clean(name: Seq<char>)
    ensures
        forall|k: int| 0 <= k < words_of(name).len() ==> clean_word(#[trigger] words_of(name)[k]),
{
    lemma_split_state_clean(name, name.len());
    let (words, cur) = split_state(name, name.len());
    if cur.len() > 0 {
        assert(clean_word(cur));
        let w2 = words.push(cur);
        assert forall|k: int| 0 <= k < w2.len() implies clean_word(#[trigger] w2[k]) by {
            if k < words.len() {
                assert(w2[k] == words[k]);
            }
        }
    }
}

/// The chars of `s` without `_` and `-`, in ASCII lowercase.
pub open spec fn lowered(s: Seq<char>) -> Seq<char>
    decreases s.len(),
{
    if s.len() == 0 {
        Seq::empty()
    } else if is_separator(s.last()) {
        lowered(s.drop_last())
    } else {
        lowered(s.drop_last()).push(lower_char(s.last()))
    }
}

proof fn lemma_concat_push(w: Seq<Seq<char>>, c: Seq<char>)
    ensures
        joined(w.push(c), Seq::empty()) == joined(w, Seq::empty()) + c,
{
    let v = w.push(c);
    assert(v.last() == c);
    if w.len() > 0 {
        assert(v.drop_last() =~= w);
        assert(joined(w, Seq::empty()) + Seq::<char>::empty() + c =~= joined(w, Seq::empty()) + c);
    } else {
        assert(v[0] == c);
        assert(joined(w, Seq::<char>::empty()) =~= Seq::<char>::empty());
        assert(Seq::<char>::empty() + c =~= c);
    }
}

proof fn lemma_split_concat(name: Seq<char>, i: nat)
    requires
        i <= name.len(),
    ensures
        joined(split_state(name, i).0, Seq::empty()) + split_state(name, i).1 == lowered(name.subrange(0, i as int)),
    decreases i,
{
    if i == 0 {
        assert(name.subrange(0, 0) =~= Seq::<char>::empty());
        assert(joined(Seq::<Seq<char>>::empty(), Seq::<char>::empty()) + Seq::<char>::empty() =~= Seq::<char>::empty());
    } else {
        lemma_split_concat(name, (i - 1) as nat);
        let (w, c) = split_state(name, (i - 1) as nat);
        let ch = name[i - 1];
        let pre = name.subrange(0, i as int);
        assert(pre.drop_last() =~= name.subrange(0, i - 1));
        assert(pre.last() == ch);
        if is_separator(ch) {
            if c.len() > 0 {
                lemma_concat_push(w, c);
                assert(joined(w.push(c), Seq::empty()) + Seq::<char>::empty() =~= joined(w.push(c), Seq::empty()));
            }
        } else if c.len() > 0 && starts_word(name, i - 1) {
            lemma_concat_push(w, c);
            assert(joined(w.push(c), Seq::empty()) + seq![lower_char(ch)] =~= (joined(w, Seq::empty()) + c).push(lower_char(ch)));
        } else {
            assert(joined(w, Seq::empty()) + c.push(lower_char(ch)) =~= (joined(w, Seq::empty()) + c).push(lower_char(ch)));
        }
    }
}

/// The words of an identifier, put together, are its chars without `_`
/// and `-`, in ASCII lowercase: splitting loses nothing but separators and
/// case (so `HttpStatusCode` and `http_status_code` give the same words).
pub proof fn law_words_concat_to_lowered_name(name: Seq<char>)
    ensures
        joined(words_of(name), Seq::empty()) == lowered(name),
{
    lemma_split_concat(name, name.len());
    let (w, c) = split_state(name, name.len());
    assert(name.subrange(0, name.len() as int) =~= name);
    if c.len() > 0 {
        lemma_concat_push(w, c);
    } else {
        assert(joined(w, Seq::empty()) + c =~= joined(w, Seq::empty()));
    }
}

/// A snake_case identifier: lowercase ASCII letters and single `_` between
/// them, starting and ending with a letter.
pub open spec fn snake_ident(name: Seq<char>) -> bool {
    &&& name.len() > 0
    &&& is_lower(name[0])
    &&& is_lower(name.last())
    &&& forall|i: int| 0 <= i < name.len() ==> is_lower(#[trigger] name[i]) || name[i] == '_'
    &&& forall|i: int| 0 < i < name.len() ==> !(#[trigger] name[i] == '_' && name[i - 1] == '_')
}

/// The words read so far, joined, then the word being read.
spec fn prefix_join(w: Seq<Seq<char>>, c: Seq<char>) -> Seq<char> {
    if w.len() == 0 { c } else { joined(w, seq!['_']) + seq!['_'] + c }
}

proof fn lemma_joined_push(w: Seq<Seq<char>>, c: Seq<char>)
    ensures
        joined(w.push(c), seq!['_']) == prefix_join(w, c),
{
    let v = w.push(c);
    assert(v.last() == c);
    if w.len() > 0 {
        assert(v.drop_last() =~= w);
    } else {
        assert(v[0] == c);
    }
}

proof fn lemma_snake_prefix(name: Seq<char>, i: int)
    requires
        snake_ident(name),
        1 <= i <= name.len(),
    ensures
        ({
            let (w, c) = split_state(name, i as nat);
            if name[i - 1] == '_' {
                c.len() == 0 && w.len() > 0 && joined(w, seq!['_']) + seq!['_'] == name.subrange(0, i)
            } else {
                c.len() > 0 && prefix_join(w, c) == name.subrange(0, i)
            }
        }),
    decreases i,
{
    let ch = name[i - 1];
    assert(is_lower(ch) || ch == '_');
    if i == 1 {
        assert(split_state(name, 0) == (Seq::<Seq<char>>::empty(), Seq::<char>::empty()));
        assert(Seq::<char>::empty().push(lower_char(ch)) =~= name.subrange(0, 1));
    } else {
        lemma_snake_prefix(name, i - 1);
        let (w, c) = split_state(name, (i - 1) as nat);
        let prev = name[i - 2];
        assert(is_lower(prev) || prev == '_');
        if ch == '_' {
            assert(!(name[i - 1] == '_' && name[i - 1 - 1] == '_'));
            lemma_joined_push(w, c);
            assert(name.subrange(0, i) =~= name.subrange(0, i - 1) + seq!['_']);
        } else {
            assert(lower_char(ch) == ch);
            if prev == '_' {
                assert(prefix_join(w, seq![ch]) =~= name.subrange(0, i - 1) + seq![ch]);
                assert(c.push(lower_char(ch)) =~= seq![ch]);
                assert(name.subrange(0, i) =~= name.subrange(0, i - 1) + seq![ch]);
            } else {
                assert(!starts_word(name, i - 1));
                assert(prefix_join(w, c.push(ch)) =~= prefix_join(w, c).push(ch));
                assert(name.subrange(0, i) =~= name.subrange(0, i - 1).push(ch));
            }
        }
    }
}

/// Splitting a snake_case identifier into words and joining them with `_`
/// gives it back: `snake_case` renames a snake_case field to itself.
pub proof fn law_snake_case_keeps_snake_idents(name: Seq<char>)
    requires
        snake_ident(name),
    ensures
        joined(words_of(name), seq!['_']) == name,
        renamed(RenameRule::SnakeCase, name) == name,
{
    lemma_snake_prefix(name, name.len() as int);
    let (w, c) = split_state(name, name.len());
    lemma_joined_push(w, c);
    assert(name.subrange(0, name.len() as int) =~= name);
}

/// Whether a non-flattened, non-oneof field's key arm takes `key`.
pub open spec fn arm_takes(f: FieldView, with_proto: bool, key: Seq<char>) -> bool {
    key == f.deserialize_name || (with_proto && key == f.proto_name) || f.aliases.contains(key)
}

/// A plain field that is read takes exactly its JSON name, its proto name
/// and its aliases, so the proto field name is always accepted on
/// deserialization.
pub proof fn law_arm_takes_json_and_proto_names(f: FieldView, key: Seq<char>)
    requires
        !f.is_flatten,
        !f.is_oneof,
        !f.skip_deserializing,
    ensures
        match_arm_of(f) matches Ok(MatchArm::Names { with_proto }) && (arm_takes(f, with_proto, key)
            <==> (key == f.deserialize_name || key == f.proto_name || f.aliases.contains(key))),
{
}

/// With the same rename rule for both directions, and no `rename` that
/// gives the two directions different names, a field is written under the
/// name it is read back by.
pub proof fn law_written_name_is_read_back(field: FieldInput, rule: Option<RenameRule>, f: FieldView)
    requires
        field_info_of(field, rule, rule) == Ok::<FieldView, (DeriveErrorKind, Seq<char>)>(f),
        canonical_attrs_of(AttrPlace::Field, field.attrs@) matches Ok(a) && a.rename_serialize == a.rename_deserialize,
    ensures
        f.serialize_name == f.deserialize_name,
        !f.is_flatten && !f.is_oneof && !f.skip_deserializing ==> (match_arm_of(f) matches Ok(MatchArm::Names { with_proto })
            && arm_takes(f, with_proto, f.serialize_name)),
{
}

/// A flattened field is a message or an optional message, no oneof, and
/// sets neither `proto_name` nor `json_name`.
pub proof fn law_flatten_only_on_messages(field: FieldInput, sr: Option<RenameRule>, dr: Option<RenameRule>, f: FieldView)
    requires
        field_info_of(field, sr, dr) == Ok::<FieldView, (DeriveErrorKind, Seq<char>)>(f),
        f.is_flatten,
    ensures
        message_like(f.kind),
        !f.is_oneof,
        canonical_attrs_of(AttrPlace::Field, field.attrs@) matches Ok(a) && a.proto_name is None && a.json_name is None,
{
}

proof fn lemma_map_all_pointwise<A, B>(xs: Seq<A>, f: spec_fn(A) -> Result<B, (DeriveErrorKind, Seq<char>)>, k: int, ys: Seq<B>)
    requires
        0 <= k <= xs.len(),
        map_all(xs, f, k) == Ok::<Seq<B>, (DeriveErrorKind, Seq<char>)>(ys),
    ensures
        ys.len() == xs.len() - k,
        forall|i: int| 0 <= i < ys.len() ==> f(xs[k + i]) == Ok::<B, (DeriveErrorKind, Seq<char>)>(#[trigger] ys[i]),
    decreases xs.len() - k,
{
    if k < xs.len() {
        let y = f(xs[k])->Ok_0;
        let rest = map_all(xs, f, k + 1)->Ok_0;
        lemma_map_all_pointwise(xs, f, k + 1, rest);
        assert(ys == seq![y] + rest);
        assert forall|i: int| 0 <= i < ys.len() implies f(xs[k + i]) == Ok::<B, (DeriveErrorKind, Seq<char>)>(#[trigger] ys[i]) by {
            if i > 0 {
                assert(ys[i] == rest[i - 1]);
                assert(k + i == (k + 1) + (i - 1));
            }
        }
    }
}

/// Serialization writes one entry per field, in declaration order.
pub proof fn law_serialize_follows_declaration_order(ident: Seq<char>, attrs: Seq<Attribute>, fields: FieldsInput, c: ContainerView, fs: Seq<FieldView>, has_flatten: bool, es: Seq<SerializeEntry>)
    requires
        serialize_struct_of(ident, attrs, fields) == Ok::<_, (DeriveErrorKind, Seq<char>)>((c, fs, SerializeMode::Object { has_flatten }, es)),
    ensures
        es.len() == fs.len(),
        forall|i: int| 0 <= i < es.len() ==> serialize_entry_of(fs[i]) == Ok::<SerializeEntry, (DeriveErrorKind, Seq<char>)>(#[trigger] es[i]),
{
    lemma_map_all_pointwise(fs, |f: FieldView| serialize_entry_of(f), 0, es);
}

/// A field adds to the length announced to a struct serializer exactly when
/// its entry is written: the announced length is the number of entries.
pub proof fn law_count_matches_written_entries(kind: Kind, is_oneof: bool)
    ensures
        match serialize_plan_of(kind, false, is_oneof) {
            SerializeFieldPlan::Oneof | SerializeFieldPlan::Optional { .. } => count_rule_of(kind, is_oneof) == CountRule::IfSome,
            SerializeFieldPlan::Repeated { .. } | SerializeFieldPlan::Keyed { .. } => count_rule_of(kind, is_oneof) == CountRule::IfNonEmpty,
            SerializeFieldPlan::Single { check, .. } => count_rule_of(kind, is_oneof) == CountRule::IfNotDefault(check),
            SerializeFieldPlan::Flatten { .. } => false,
        },
{
}

/// A transparent struct has exactly one field, which is neither a oneof nor
/// flattened, and no tag.
pub proof fn law_transparent_has_one_plain_field(ident: Seq<char>, attrs: Seq<Attribute>, fields: FieldsInput, c: ContainerView, fs: Seq<FieldView>, m: SerializeMode, es: Seq<SerializeEntry>)
    requires
        serialize_struct_of(ident, attrs, fields) == Ok::<_, (DeriveErrorKind, Seq<char>)>((c, fs, m, es)),
        m is Transparent,
    ensures
        c.transparent,
        c.tag is None,
        fs.len() == 1,
        !fs[0].is_oneof,
        !fs[0].is_flatten,
{
}

/// A struct read as an object never combines `deny_unknown_fields` with a
/// flattened field.
pub proof fn law_no_deny_unknown_with_flatten(ident: Seq<char>, attrs: Seq<Attribute>, fields: FieldsInput, c: ContainerView, fs: Seq<FieldView>, has_flatten: bool, es: Seq<DeserializeEntry>)
    requires
        deserialize_struct_of(ident, attrs, fields) == Ok::<_, (DeriveErrorKind, Seq<char>)>((c, fs, DeserializeMode::Object { has_flatten }, es)),
    ensures
        !(c.deny_unknown_fields && has_flatten),
        !c.transparent,
        es.len() == fs.len(),
        forall|i: int| 0 <= i < es.len() ==> ((#[trigger] es[i]).role is Flatten <==> (fs[i].is_flatten && !fs[i].skip_deserializing)),
{
    let has_default = !(c.default is Unset);
    lemma_map_all_pointwise(fs, |f: FieldView| deserialize_entry_of(f, has_default), 0, es);
    assert forall|i: int| 0 <= i < es.len() implies ((#[trigger] es[i]).role is Flatten <==> (fs[i].is_flatten && !fs[i].skip_deserializing)) by {
        assert(deserialize_entry_of(fs[0 + i], has_default) == Ok::<DeserializeEntry, (DeriveErrorKind, Seq<char>)>(es[i]));
    }
}

/// Where the generated reader sends a key of an object: the tag, then the
/// oneof fields in order, then the plain fields' names in order, then the
/// flattened fields in order; `oneof_takes(i, key)` and `flatten_takes(i, key)`
/// say whether the oneof type or the flattened message type of field `i`
/// knows the key.
pub enum KeyTarget {
    Tag,
    Oneof(int),
    Field(int),
    Flatten(int),
    Unmatched,
}

/// The first field from `i` on whose role `takes` accepts the key.
pub open spec fn first_taker(n: int, takes: spec_fn(int) -> bool, i: int) -> Option<int>
    decreases n - i,
{
    if i < 0 || i >= n {
        None
    } else if takes(i) {
        Some(i)
    } else {
        first_taker(n, takes, i + 1)
    }
}

pub open spec fn key_target(tag: Option<Seq<char>>, fs: Seq<FieldView>, es: Seq<DeserializeEntry>, key: Seq<char>, oneof_takes: spec_fn(int, Seq<char>) -> bool, flatten_takes: spec_fn(int, Seq<char>) -> bool) -> KeyTarget {
    let n = es.len() as int;
    if tag == Some(key) {
        KeyTarget::Tag
    } else if let Some(i) = first_taker(n, |i: int| es[i].role is Oneof && oneof_takes(i, key), 0) {
        KeyTarget::Oneof(i)
    } else if let Some(i) = first_taker(n, |i: int| es[i].role is Read && arm_takes(fs[i], es[i].with_proto, key), 0) {
        KeyTarget::Field(i)
    } else if let Some(i) = first_taker(n, |i: int| es[i].role is Flatten && flatten_takes(i, key), 0) {
        KeyTarget::Flatten(i)
    } else {
        KeyTarget::Unmatched
    }
}

proof fn lemma_first_taker(n: int, takes: spec_fn(int) -> bool, i: int, j: int)
    requires
        0 <= i <= j < n,
        takes(j),
    ensures
        first_taker(n, takes, i) matches Some(k) && i <= k <= j && takes(k),
    decreases j - i,
{
    if !takes(i) {
        lemma_first_taker(n, takes, i + 1, j);
    }
}

/// On deserialization a key that a non-flattened field takes never goes to
/// a flattened field: it goes to the first such field (unless the tag or a
/// oneof takes it first); flattened fields only see the remaining keys, the
/// first one in declaration order that knows the key wins.
pub proof fn law_plain_fields_before_flattened(tag: Option<Seq<char>>, fs: Seq<FieldView>, es: Seq<DeserializeEntry>, key: Seq<char>, oneof_takes: spec_fn(int, Seq<char>) -> bool, flatten_takes: spec_fn(int, Seq<char>) -> bool, j: int)
    requires
        0 <= j < es.len(),
        es[j].role is Read,
        arm_takes(fs[j], es[j].with_proto, key),
    ensures
        key_target(tag, fs, es, key, oneof_takes, flatten_takes) matches KeyTarget::Flatten(_) ==> false,
        key_target(tag, fs, es, key, oneof_takes, flatten_takes) matches KeyTarget::Field(i) ==> i <= j,
{
    let n = es.len() as int;
    lemma_first_taker(n, |i: int| es[i].role is Read && arm_takes(fs[i], es[i].with_proto, key), 0, j);
}

/// Whether the route takes the key: the tag by its name, a oneof or a
/// flattened message as `oneof_takes` and `flatten_takes` say, a read field
/// by its names.
pub open spec fn route_takes(r: KeyRoute, tag: Option<Seq<char>>, fs: Seq<FieldView>, es: Seq<DeserializeEntry>, key: Seq<char>, oneof_takes: spec_fn(int, Seq<char>) -> bool, flatten_takes: spec_fn(int, Seq<char>) -> bool) -> bool {
    match r {
        KeyRoute::Tag => tag == Some(key),
        KeyRoute::Oneof(i) => oneof_takes(i as int, key),
        KeyRoute::Field(i) => arm_takes(fs[i as int], es[i as int].with_proto, key),
        KeyRoute::Flatten(i) => flatten_takes(i as int, key),
    }
}

/// The first route of the list that takes the key.
pub open spec fn first_route(rs: Seq<KeyRoute>, takes: spec_fn(KeyRoute) -> bool) -> Option<KeyRoute>
    decreases rs.len(),
{
    if rs.len() == 0 {
        None
    } else if takes(rs[0]) {
        Some(rs[0])
    } else {
        first_route(rs.drop_first(), takes)
    }
}

/// Where a route sends a key.
pub open spec fn target_of(r: Option<KeyRoute>) -> KeyTarget {
    match r {
        None => KeyTarget::Unmatched,
        Some(KeyRoute::Tag) => KeyTarget::Tag,
        Some(KeyRoute::Oneof(i)) => KeyTarget::Oneof(i as int),
        Some(KeyRoute::Field(i)) => KeyTarget::Field(i as int),
        Some(KeyRoute::Flatten(i)) => KeyTarget::Flatten(i as int),
    }
}

proof fn lemma_first_route_concat(a: Seq<KeyRoute>, b: Seq<KeyRoute>, takes: spec_fn(KeyRoute) -> bool)
    ensures
        first_route(a + b, takes) == (if first_route(a, takes) is Some { first_route(a, takes) } else { first_route(b, takes) }),
    decreases a.len(),
{
    if a.len() > 0 {
        assert((a + b)[0] == a[0]);
        assert((a + b).drop_first() =~= a.drop_first() + b);
        lemma_first_route_concat(a.drop_first(), b, takes);
    } else {
        assert(a + b =~= b);
    }
}

proof fn lemma_first_taker_extend(n: int, p: spec_fn(int) -> bool, i: int)
    requires
        0 <= i <= n,
    ensures
        first_taker(n + 1, p, i) == (if first_taker(n, p, i) is Some { first_taker(n, p, i) } else if p(n) { Some(n) } else { None }),
    decreases n - i,
{
    assert(first_taker(n + 1, p, n + 1) is None);
    if i < n {
        lemma_first_taker_extend(n, p, i + 1);
    }
}

proof fn lemma_group_first(es: Seq<DeserializeEntry>, g: RouteGroup, n: int, takes: spec_fn(KeyRoute) -> bool)
    requires
        0 <= n <= es.len(),
        es.len() <= usize::MAX,
    ensures
        first_route(group_routes(es, g, n), takes) == match first_taker(n, |i: int| in_group(es[i].role, g) && takes(group_route(g, i)), 0) {
            Some(i) => Some(group_route(g, i)),
            None => None::<KeyRoute>,
        },
    decreases n,
{
    let p = |i: int| in_group(es[i].role, g) && takes(group_route(g, i));
    if n > 0 {
        lemma_group_first(es, g, n - 1, takes);
        lemma_first_taker_extend(n - 1, p, 0);
        if in_group(es[n - 1].role, g) {
            lemma_first_route_concat(group_routes(es, g, n - 1), seq![group_route(g, n - 1)], takes);
            assert(group_routes(es, g, n - 1).push(group_route(g, n - 1)) =~= group_routes(es, g, n - 1) + seq![group_route(g, n - 1)]);
            assert(first_route(seq![group_route(g, n - 1)], takes) == (if takes(group_route(g, n - 1)) { Some(group_route(g, n - 1)) } else { None })) by {
                assert(seq![group_route(g, n - 1)].drop_first() =~= Seq::<KeyRoute>::empty());
                assert(first_route(Seq::<KeyRoute>::empty(), takes) is None);
            }
        }
    }
}

/// The reader's key order in the plan ([`routes_of`]) sends each key where
/// [`key_target`] says: the tag, then the first oneof that knows it, then
/// the first read field that takes it, then the first flattened message
/// that knows it, in declaration order.
pub proof fn law_routes_send_keys_to_their_target(tag: Option<Seq<char>>, fs: Seq<FieldView>, es: Seq<DeserializeEntry>, key: Seq<char>, oneof_takes: spec_fn(int, Seq<char>) -> bool, flatten_takes: spec_fn(int, Seq<char>) -> bool)
    requires
        es.len() <= usize::MAX,
    ensures
        target_of(first_route(routes_of(tag is Some, es), |r: KeyRoute| route_takes(r, tag, fs, es, key, oneof_takes, flatten_takes)))
            == key_target(tag, fs, es, key, oneof_takes, flatten_takes),
{
    let takes = |r: KeyRoute| route_takes(r, tag, fs, es, key, oneof_takes, flatten_takes);
    let n = es.len() as int;
    let head = if tag is Some { seq![KeyRoute::Tag] } else { Seq::<KeyRoute>::empty() };
    let go = group_routes(es, RouteGroup::Oneof, n);
    let gf = group_routes(es, RouteGroup::Field, n);
    let gl = group_routes(es, RouteGroup::Flatten, n);
    lemma_first_route_concat(head + go + gf, gl, takes);
    lemma_first_route_concat(head + go, gf, takes);
    lemma_first_route_concat(head, go, takes);
    lemma_group_first(es, RouteGroup::Oneof, n, takes);
    lemma_group_first(es, RouteGroup::Field, n, takes);
    lemma_group_first(es, RouteGroup::Flatten, n, takes);
    if tag is Some {
        assert(head.drop_first() =~= Seq::<KeyRoute>::empty());
    }
    let po = |i: int| in_group(es[i].role, RouteGroup::Oneof) && takes(group_route(RouteGroup::Oneof, i));
    let qo = |i: int| es[i].role is Oneof && oneof_takes(i, key);
    let pf = |i: int| in_group(es[i].role, RouteGroup::Field) && takes(group_route(RouteGroup::Field, i));
    let qf = |i: int| es[i].role is Read && arm_takes(fs[i], es[i].with_proto, key);
    let pl = |i: int| in_group(es[i].role, RouteGroup::Flatten) && takes(group_route(RouteGroup::Flatten, i));
    let ql = |i: int| es[i].role is Flatten && flatten_takes(i, key);
    assert(first_route(Seq::<KeyRoute>::empty(), takes) is None);
    assert forall|j: int| 0 <= j < n implies #[trigger] po(j) == qo(j) by {
        assert((j as usize) as int == j);
    }
    assert forall|j: int| 0 <= j < n implies #[trigger] pf(j) == qf(j) by {
        assert((j as usize) as int == j);
    }
    assert forall|j: int| 0 <= j < n implies #[trigger] pl(j) == ql(j) by {
        assert((j as usize) as int == j);
    }
    lemma_first_taker_same(n, po, qo, 0);
    lemma_first_taker_same(n, pf, qf, 0);
    lemma_first_taker_same(n, pl, ql, 0);
    lemma_first_taker_bounds(n, qo, 0);
    lemma_first_taker_bounds(n, qf, 0);
    lemma_first_taker_bounds(n, ql, 0);
}

proof fn lemma_first_taker_bounds(n: int, p: spec_fn(int) -> bool, i: int)
    ensures
        first_taker(n, p, i) matches Some(k) ==> i <= k < n && p(k),
    decreases n - i,
{
    if 0 <= i < n && !p(i) {
        lemma_first_taker_bounds(n, p, i + 1);
    }
}

proof fn lemma_first_taker_same(n: int, p: spec_fn(int) -> bool, q: spec_fn(int) -> bool, i: int)
    requires
        n <= usize::MAX + 1,
        forall|j: int| 0 <= j < n ==> #[trigger] p(j) == q(j),
    ensures
        first_taker(n, p, i) == first_taker(n, q, i),
    decreases n - i,
{
    if 0 <= i < n {
        lemma_first_taker_same(n, p, q, i + 1);
    }
}

proof fn lemma_field_writes(es: Seq<SerializeEntry>, n: int)
    requires
        0 <= n <= es.len(),
        es.len() <= usize::MAX,
    ensures
        forall|k: int| 0 <= k < field_writes(es, n).len() ==> (#[trigger] field_writes(es, n)[k] matches WriteStep::Field(j)
            && 0 <= j < n && !es[j as int].skipped),
        forall|j: int| 0 <= j < n && !es[j].skipped ==> field_writes(es, n).contains(WriteStep::Field(j as usize)),
    decreases n,
{
    if n > 0 {
        lemma_field_writes(es, n - 1);
        let prev = field_writes(es, n - 1);
        if !es[n - 1].skipped {
            let cur = prev.push(WriteStep::Field((n - 1) as usize));
            assert forall|j: int| 0 <= j < n && !es[j].skipped implies cur.contains(WriteStep::Field(j as usize)) by {
                if j < n - 1 {
                    let k = choose|k: int| 0 <= k < prev.len() && prev[k] == WriteStep::Field(j as usize);
                    assert(cur[k] == prev[k]);
                } else {
                    assert(cur[cur.len() - 1] == WriteStep::Field(j as usize));
                }
            }
        }
    }
}

/// An object is written tag first (when there is one), then each field that
/// is not skipped, and never a skipped field.
pub proof fn law_tag_written_first(has_tag: bool, es: Seq<SerializeEntry>)
    requires
        es.len() <= usize::MAX,
    ensures
        has_tag ==> writes_of(has_tag, es)[0] == WriteStep::Tag,
        forall|k: int| (if has_tag { 1int } else { 0int }) <= k < writes_of(has_tag, es).len()
            ==> (#[trigger] writes_of(has_tag, es)[k] matches WriteStep::Field(j) && !es[j as int].skipped),
        forall|j: int| 0 <= j < es.len() && !es[j].skipped ==> writes_of(has_tag, es).contains(WriteStep::Field(j as usize)),
{
    let n = es.len() as int;
    lemma_field_writes(es, n);
    let head = if has_tag { seq![WriteStep::Tag] } else { Seq::<WriteStep>::empty() };
    let fw = field_writes(es, n);
    let all = head + fw;
    assert forall|k: int| head.len() <= k < all.len() implies (#[trigger] all[k] matches WriteStep::Field(j) && !es[j as int].skipped) by {
        assert(all[k] == fw[k - head.len()]);
    }
    assert forall|j: int| 0 <= j < n && !es[j].skipped implies all.contains(WriteStep::Field(j as usize)) by {
        let k = choose|k: int| 0 <= k < fw.len() && fw[k] == WriteStep::Field(j as usize);
        assert(all[k + head.len()] == fw[k]);
    }
}

proof fn lemma_group_routes_contains(es: Seq<DeserializeEntry>, g: RouteGroup, n: int, i: int)
    requires
        0 <= i < n <= es.len(),
        in_group(es[i].role, g),
    ensures
        group_routes(es, g, n).contains(group_route(g, i)),
    decreases n,
{
    if i < n - 1 {
        lemma_group_routes_contains(es, g, n - 1, i);
        let prev = group_routes(es, g, n - 1);
        let k = choose|k: int| 0 <= k < prev.len() && prev[k] == group_route(g, i);
        if in_group(es[n - 1].role, g) {
            assert(prev.push(group_route(g, n - 1))[k] == prev[k]);
        }
    } else {
        let prev = group_routes(es, g, n - 1);
        assert(prev.push(group_route(g, i))[prev.len() as int] == group_route(g, i));
    }
}

proof fn lemma_first_taker_none(n: int, p: spec_fn(int) -> bool, i: int)
    requires
        forall|j: int| i <= j < n ==> !#[trigger] p(j),
    ensures
        first_taker(n, p, i) is None,
    decreases n - i,
{
    if 0 <= i < n {
        lemma_first_taker_none(n, p, i + 1);
    }
}

/// A field that is written, read, neither flattened nor a oneof, and has
/// the same name in both directions round-trips through the plans: the
/// writer writes it (under its serialize name), the reader's key order has
/// a route for it, its names take that key, and when neither the tag, nor a
/// oneof, nor an earlier read field takes the key, the key goes to it.
pub proof fn law_written_field_is_read_back(tag: Option<Seq<char>>, fs: Seq<FieldView>, ses: Seq<SerializeEntry>, des: Seq<DeserializeEntry>, has_default: bool, i: int, oneof_takes: spec_fn(int, Seq<char>) -> bool, flatten_takes: spec_fn(int, Seq<char>) -> bool)
    requires
        ses.len() == fs.len(),
        des.len() == fs.len(),
        fs.len() <= usize::MAX,
        forall|j: int| 0 <= j < fs.len() ==> serialize_entry_of(fs[j]) == Ok::<SerializeEntry, (DeriveErrorKind, Seq<char>)>(#[trigger] ses[j]),
        forall|j: int| 0 <= j < fs.len() ==> deserialize_entry_of(fs[j], has_default) == Ok::<DeserializeEntry, (DeriveErrorKind, Seq<char>)>(#[trigger] des[j]),
        0 <= i < fs.len(),
        !fs[i].skip_serializing,
        !fs[i].skip_deserializing,
        !fs[i].is_flatten,
        !fs[i].is_oneof,
        fs[i].serialize_name == fs[i].deserialize_name,
    ensures
        writes_of(tag is Some, ses).contains(WriteStep::Field(i as usize)),
        des[i].role is Read,
        routes_of(tag is Some, des).contains(KeyRoute::Field(i as usize)),
        arm_takes(fs[i], des[i].with_proto, fs[i].serialize_name),
        ({
            let key = fs[i].serialize_name;
            (tag != Some(key)
                && (forall|j: int| 0 <= j < fs.len() && des[j].role is Oneof ==> !#[trigger] oneof_takes(j, key))
                && (forall|j: int| 0 <= j < i && des[j].role is Read ==> !arm_takes(#[trigger] fs[j], des[j].with_proto, key)))
            ==> key_target(tag, fs, des, key, oneof_takes, flatten_takes) == KeyTarget::Field(i)
        }),
{
    let n = fs.len() as int;
    let key = fs[i].serialize_name;
    assert(serialize_entry_of(fs[i]) == Ok::<SerializeEntry, (DeriveErrorKind, Seq<char>)>(ses[i]));
    assert(deserialize_entry_of(fs[i], has_default) == Ok::<DeserializeEntry, (DeriveErrorKind, Seq<char>)>(des[i]));
    law_tag_written_first(tag is Some, ses);
    lemma_group_routes_contains(des, RouteGroup::Field, n, i);
    let head = if tag is Some { seq![KeyRoute::Tag] } else { Seq::<KeyRoute>::empty() };
    let go = group_routes(des, RouteGroup::Oneof, n);
    let gf = group_routes(des, RouteGroup::Field, n);
    let gl = group_routes(des, RouteGroup::Flatten, n);
    let all = head + go + gf + gl;
    let k = choose|k: int| 0 <= k < gf.len() && gf[k] == KeyRoute::Field(i as usize);
    assert(all[head.len() + go.len() + k] == gf[k]);
    if tag != Some(key)
        && (forall|j: int| 0 <= j < fs.len() && des[j].role is Oneof ==> !#[trigger] oneof_takes(j, key))
        && (forall|j: int| 0 <= j < i && des[j].role is Read ==> !arm_takes(#[trigger] fs[j], des[j].with_proto, key)) {
        let qo = |j: int| des[j].role is Oneof && oneof_takes(j, key);
        let qf = |j: int| des[j].role is Read && arm_takes(fs[j], des[j].with_proto, key);
        assert forall|j: int| 0 <= j < n implies !#[trigger] qo(j) by {}
        lemma_first_taker_none(n, qo, 0);
        lemma_first_taker(n, qf, 0, i);
        lemma_first_taker_bounds(n, qf, 0);
    }
}

proof fn lemma_counts_follow_writes(es: Seq<SerializeEntry>, n: int)
    requires
        0 <= n <= es.len(),
        es.len() <= usize::MAX,
    ensures
        field_counts(es, n).len() == field_writes(es, n).len(),
        forall|k: int| 0 <= k < field_counts(es, n).len()
            ==> #[trigger] field_writes(es, n)[k] == WriteStep::Field(field_counts(es, n)[k].0)
                && field_counts(es, n)[k].1 == es[field_counts(es, n)[k].0 as int].count,
    decreases n,
{
    if n > 0 {
        lemma_counts_follow_writes(es, n - 1);
        if !es[n - 1].skipped {
            let c = field_counts(es, n - 1);
            let w = field_writes(es, n - 1);
            assert forall|k: int| 0 <= k < c.len() + 1 implies
                #[trigger] w.push(WriteStep::Field((n - 1) as usize))[k] == WriteStep::Field(c.push(((n - 1) as usize, es[n - 1].count))[k].0)
                && c.push(((n - 1) as usize, es[n - 1].count))[k].1 == es[c.push(((n - 1) as usize, es[n - 1].count))[k].0 as int].count by {
                if k < c.len() {
                    assert(w[k] == WriteStep::Field(c[k].0));
                } else {
                    assert(((n - 1) as usize) as int == n - 1);
                }
            }
        }
    }
}

/// The length announced to a struct serializer counts what is written: one
/// for the tag when there is one, then one counting step per written field,
/// in the same order as the writes, each with that field's count rule; a
/// skipped field is neither written nor counted. (Per field, the count rule
/// holds exactly when the entry is written: `law_count_matches_written_entries`.)
pub proof fn law_counts_match_writes(has_tag: bool, es: Seq<SerializeEntry>)
    requires
        es.len() <= usize::MAX,
    ensures
        (if has_tag { 1int } else { 0int }) + field_counts(es, es.len() as int).len() == writes_of(has_tag, es).len(),
        forall|k: int| 0 <= k < field_counts(es, es.len() as int).len()
            ==> writes_of(has_tag, es)[k + (if has_tag { 1int } else { 0int })] == WriteStep::Field(#[trigger] field_counts(es, es.len() as int)[k].0)
                && !es[field_counts(es, es.len() as int)[k].0 as int].skipped,
{
    let n = es.len() as int;
    lemma_counts_follow_writes(es, n);
    lemma_counts_not_skipped(es, n);
    let head = if has_tag { seq![WriteStep::Tag] } else { Seq::<WriteStep>::empty() };
    let fw = field_writes(es, n);
    assert forall|k: int| 0 <= k < field_counts(es, n).len() implies
        writes_of(has_tag, es)[k + (if has_tag { 1int } else { 0int })] == WriteStep::Field(#[trigger] field_counts(es, n)[k].0)
        && !es[field_counts(es, n)[k].0 as int].skipped by {
        assert((head + fw)[k + head.len()] == fw[k]);
        assert(fw[k] == WriteStep::Field(field_counts(es, n)[k].0));
    }
}

proof fn lemma_counts_not_skipped(es: Seq<SerializeEntry>, n: int)
    requires
        0 <= n <= es.len(),
        es.len() <= usize::MAX,
    ensures
        forall|k: int| 0 <= k < field_counts(es, n).len() ==> 0 <= (#[trigger] field_counts(es, n)[k]).0 < n
            && !es[field_counts(es, n)[k].0 as int].skipped,
    decreases n,
{
    if n > 0 {
        lemma_counts_not_skipped(es, n - 1);
        if !es[n - 1].skipped {
            let c = field_counts(es, n - 1);
            assert forall|k: int| 0 <= k < c.len() + 1 implies 0 <= (#[trigger] c.push(((n - 1) as usize, es[n - 1].count))[k]).0 < n
                && !es[c.push(((n - 1) as usize, es[n - 1].count))[k].0 as int].skipped by {
                if k < c.len() {
                    assert(c.push(((n - 1) as usize, es[n - 1].count))[k] == c[k]);
                } else {
                    assert(((n - 1) as usize) as int == n - 1);
                }
            }
        }
    }
}

/// A flattened field that is written and read round-trips through the
/// plans: the writer writes it (its message's entries go into the object),
/// the reader's key order has a route to its message type, and a key that
/// the message type knows goes there when neither the tag, nor a oneof, nor
/// a read field, nor an earlier flattened field takes it.
pub proof fn law_flattened_field_is_read_back(tag: Option<Seq<char>>, fs: Seq<FieldView>, ses: Seq<SerializeEntry>, des: Seq<DeserializeEntry>, has_default: bool, i: int, key: Seq<char>, oneof_takes: spec_fn(int, Seq<char>) -> bool, flatten_takes: spec_fn(int, Seq<char>) -> bool)
    requires
        ses.len() == fs.len(),
        des.len() == fs.len(),
        fs.len() <= usize::MAX,
        forall|j: int| 0 <= j < fs.len() ==> serialize_entry_of(fs[j]) == Ok::<SerializeEntry, (DeriveErrorKind, Seq<char>)>(#[trigger] ses[j]),
        forall|j: int| 0 <= j < fs.len() ==> deserialize_entry_of(fs[j], has_default) == Ok::<DeserializeEntry, (DeriveErrorKind, Seq<char>)>(#[trigger] des[j]),
        0 <= i < fs.len(),
        fs[i].is_flatten,
        !fs[i].skip_serializing,
        !fs[i].skip_deserializing,
    ensures
        writes_of(tag is Some, ses).contains(WriteStep::Field(i as usize)),
        des[i].role is Flatten,
        routes_of(tag is Some, des).contains(KeyRoute::Flatten(i as usize)),
        (tag != Some(key)
            && (forall|j: int| 0 <= j < fs.len() && des[j].role is Oneof ==> !#[trigger] oneof_takes(j, key))
            && (forall|j: int| 0 <= j < fs.len() && des[j].role is Read ==> !arm_takes(#[trigger] fs[j], des[j].with_proto, key))
            && (forall|j: int| 0 <= j < i && des[j].role is Flatten ==> !#[trigger] flatten_takes(j, key))
            && flatten_takes(i, key))
            ==> key_target(tag, fs, des, key, oneof_takes, flatten_takes) == KeyTarget::Flatten(i),
{
    let n = fs.len() as int;
    assert(serialize_entry_of(fs[i]) == Ok::<SerializeEntry, (DeriveErrorKind, Seq<char>)>(ses[i]));
    assert(deserialize_entry_of(fs[i], has_default) == Ok::<DeserializeEntry, (DeriveErrorKind, Seq<char>)>(des[i]));
    law_tag_written_first(tag is Some, ses);
    lemma_group_routes_contains(des, RouteGroup::Flatten, n, i);
    let head = if tag is Some { seq![KeyRoute::Tag] } else { Seq::<KeyRoute>::empty() };
    let go = group_routes(des, RouteGroup::Oneof, n);
    let gf = group_routes(des, RouteGroup::Field, n);
    let gl = group_routes(des, RouteGroup::Flatten, n);
    let all = head + go + gf + gl;
    let k = choose|k: int| 0 <= k < gl.len() && gl[k] == KeyRoute::Flatten(i as usize);
    assert(all[head.len() + go.len() + gf.len() + k] == gl[k]);
    if tag != Some(key)
        && (forall|j: int| 0 <= j < fs.len() && des[j].role is Oneof ==> !#[trigger] oneof_takes(j, key))
        && (forall|j: int| 0 <= j < fs.len() && des[j].role is Read ==> !arm_takes(#[trigger] fs[j], des[j].with_proto, key))
        && (forall|j: int| 0 <= j < i && des[j].role is Flatten ==> !#[trigger] flatten_takes(j, key))
        && flatten_takes(i, key) {
        let qo = |j: int| des[j].role is Oneof && oneof_takes(j, key);
        let qf = |j: int| des[j].role is Read && arm_takes(fs[j], des[j].with_proto, key);
        let ql = |j: int| des[j].role is Flatten && flatten_takes(j, key);
        assert forall|j: int| 0 <= j < n implies !#[trigger] qo(j) by {}
        assert forall|j: int| 0 <= j < n implies !#[trigger] qf(j) by {}
        lemma_first_taker_none(n, qo, 0);
        lemma_first_taker_none(n, qf, 0);
        lemma_first_taker(n, ql, 0, i);
        lemma_first_taker_bounds(n, ql, 0);
    }
}

/// A oneof variant that is written and read, with no `rename` that gives
/// the two directions different names and the same rename rule both ways,
/// is written under a name that reads it back.
pub proof fn law_oneof_written_name_is_read_back(v: VariantInput, rule: Option<RenameRule>, vv: VariantView)
    requires
        variant_info_of(v, rule, rule) == Ok::<VariantView, (DeriveErrorKind, Seq<char>)>(vv),
        canonical_attrs_of(AttrPlace::Variant, v.attrs@) matches Ok(a) && a.rename_serialize == a.rename_deserialize,
        !vv.skip_serializing,
        !vv.skip_deserializing,
    ensures
        vv.serialize_name == vv.deserialize_name,
        !oneof_variant_plan_of(vv).refuse_write,
        oneof_variant_plan_of(vv).read_names.contains(vv.serialize_name),
{
    let names = oneof_variant_plan_of(vv).read_names;
    assert(names[0] == vv.deserialize_name);
}

/// The first variant among `plans` (from `i` on) whose names take the key.
pub open spec fn oneof_reader(plans: Seq<OneofVariantPlanView>, key: Seq<char>) -> Option<int> {
    first_taker(plans.len() as int, reads_key(plans, key), 0)
}

/// Whether variant `i`'s names take the key.
pub open spec fn reads_key(plans: Seq<OneofVariantPlanView>, key: Seq<char>) -> spec_fn(int) -> bool {
    |i: int| plans[i].read_names.contains(key)
}

/// Whether any variant's names take the key.
pub open spec fn oneof_matches(plans: Seq<OneofVariantPlanView>, key: Seq<char>) -> bool {
    exists|i: int| 0 <= i < plans.len() && (#[trigger] plans[i]).read_names.contains(key)
}

/// A oneof's name matching agrees with its reading: a key matches exactly
/// when some variant reads it, and it is read by the first variant, in
/// declaration order, whose names take it.
pub proof fn law_oneof_matching_agrees_with_reading(plans: Seq<OneofVariantPlanView>, key: Seq<char>)
    ensures
        oneof_matches(plans, key) <==> oneof_reader(plans, key) is Some,
        oneof_reader(plans, key) matches Some(i) ==> 0 <= i < plans.len() && plans[i].read_names.contains(key)
            && forall|j: int| 0 <= j < i ==> !(#[trigger] plans[j]).read_names.contains(key),
{
    let n = plans.len() as int;
    let p = reads_key(plans, key);
    lemma_first_taker_bounds(n, p, 0);
    lemma_first_taker_first(n, p, 0);
    if let Some(k) = first_taker(n, p, 0) {
        assert(p(k));
        assert(plans[k].read_names.contains(key));
        assert forall|j: int| 0 <= j < k implies !(#[trigger] plans[j]).read_names.contains(key) by {
            assert(!p(j));
        }
    }
    if oneof_matches(plans, key) {
        let i = choose|i: int| 0 <= i < plans.len() && (#[trigger] plans[i]).read_names.contains(key);
        lemma_first_taker(n, p, 0, i);
    }
}

proof fn lemma_first_taker_first(n: int, p: spec_fn(int) -> bool, i: int)
    ensures
        first_taker(n, p, i) matches Some(k) ==> forall|j: int| i <= j < k ==> !#[trigger] p(j),
    decreases n - i,
{
    if 0 <= i < n && !p(i) {
        lemma_first_taker_first(n, p, i + 1);
    }
}

/// When an entry of a field that is neither flattened nor a oneof is
/// written: an `Option` when it is `Some`, a list or map when it is not
/// empty, any other kind by [`check_of`] (a `bool` when true, a number or
/// enumeration when not zero, a string or bytes when not empty, a timestamp,
/// duration or message always).
pub open spec fn written_when(plan: SerializeFieldPlan) -> Option<DefaultCheck> {
    match plan {
        SerializeFieldPlan::Optional { .. } | SerializeFieldPlan::Oneof => Some(DefaultCheck::IsSome),
        SerializeFieldPlan::Repeated { .. } | SerializeFieldPlan::Keyed { .. } => Some(DefaultCheck::NonEmpty),
        SerializeFieldPlan::Single { check, .. } => Some(check),
        SerializeFieldPlan::Flatten { .. } => None,
    }
}

/// When a count rule adds one to the announced length.
pub open spec fn counted_when(rule: CountRule) -> DefaultCheck {
    match rule {
        CountRule::IfSome => DefaultCheck::IsSome,
        CountRule::IfNonEmpty => DefaultCheck::NonEmpty,
        CountRule::IfNotDefault(c) => c,
    }
}

/// A plain field has an entry exactly when its value is not the protobuf
/// default of its kind, and the announced length counts it under the same
/// condition.
pub proof fn law_entry_written_iff_not_default(kind: Kind)
    ensures
        written_when(serialize_plan_of(kind, false, false)) == Some(check_of(kind)),
        counted_when(count_rule_of(kind, false)) == check_of(kind),
{
}

/// What the reader does with a key.
pub enum KeyAction {
    /// Checks the tag's value.
    Tag,
    /// Hands the entry to the oneof type of field `i`.
    Oneof(int),
    /// Reads the value into field `i`.
    Field(int),
    /// Buffers the entry for the flattened message of field `i`.
    Flatten(int),
    /// Reads the value and drops it.
    SkipValue,
    /// Fails with serde's unknown-field error.
    Refuse,
}

/// The reader's action for a key with the given target.
pub open spec fn key_action(target: KeyTarget, on_unknown: UnknownKey) -> KeyAction {
    match target {
        KeyTarget::Tag => KeyAction::Tag,
        KeyTarget::Oneof(i) => KeyAction::Oneof(i),
        KeyTarget::Field(i) => KeyAction::Field(i),
        KeyTarget::Flatten(i) => KeyAction::Flatten(i),
        KeyTarget::Unmatched => if on_unknown is Refuse { KeyAction::Refuse } else { KeyAction::SkipValue },
    }
}

/// The field whose slot an action writes, if any.
pub open spec fn touched_field(a: KeyAction) -> Option<int> {
    match a {
        KeyAction::Oneof(i) | KeyAction::Field(i) | KeyAction::Flatten(i) => Some(i),
        _ => None,
    }
}

/// A key that no route takes touches no field: without
/// `deny_unknown_fields` its value is read and dropped, so the result is the
/// one the other entries give; with it, reading fails.
pub proof fn law_unknown_key_touches_no_field(tag: Option<Seq<char>>, fs: Seq<FieldView>, es: Seq<DeserializeEntry>, key: Seq<char>, oneof_takes: spec_fn(int, Seq<char>) -> bool, flatten_takes: spec_fn(int, Seq<char>) -> bool, deny: bool)
    requires
        es.len() <= usize::MAX,
        first_route(routes_of(tag is Some, es), |r: KeyRoute| route_takes(r, tag, fs, es, key, oneof_takes, flatten_takes)) is None,
    ensures
        key_target(tag, fs, es, key, oneof_takes, flatten_takes) == KeyTarget::Unmatched,
        key_action(key_target(tag, fs, es, key, oneof_takes, flatten_takes), unknown_key_of(deny))
            == if deny { KeyAction::Refuse } else { KeyAction::SkipValue },
        touched_field(key_action(key_target(tag, fs, es, key, oneof_takes, flatten_takes), unknown_key_of(deny))) is None,
{
    law_routes_send_keys_to_their_target(tag, fs, es, key, oneof_takes, flatten_takes);
}

/// Whether a kind holds an enumeration anywhere.
pub open spec fn mentions_enum(k: Kind) -> bool
    decreases k,
{
    match k {
        Kind::Enumeration => true,
        Kind::Repeated(inner) => mentions_enum(*inner),
        Kind::Optional(inner) => mentions_enum(*inner),
        Kind::Keyed(_, _, value) => mentions_enum(*value),
        _ => false,
    }
}

proof fn lemma_kind_of_plain(ty: TypeRepr)
    ensures
        kind_of(ty) matches Ok(k) ==> !mentions_enum(k)
            && (k is Optional ==> generic_arg(ty, "Option"@, 0) is Some),
    decreases ty,
{
    lemma_generic_arg_smaller(ty, "Option"@, 0);
    lemma_generic_arg_smaller(ty, "Vec"@, 0);
    lemma_map_types_smaller(ty);
    if let Some(inner) = generic_arg(ty, "Option"@, 0) {
        lemma_kind_of_plain(inner);
    } else if let Some(inner) = generic_arg(ty, "Vec"@, 0) {
        lemma_kind_of_plain(inner);
    } else if let Some((mk, key, value)) = map_types(ty) {
        lemma_kind_of_plain(value);
    }
}

proof fn lemma_with_enum_shape(k: Kind)
    ensures
        with_enum(k) is Optional <==> k is Optional,
{
}

/// What the derive makes of a field is well formed: a kind that holds an
/// enumeration comes with the enumeration's path, and an optional kind with
/// the `Option`'s inner type.
pub proof fn law_field_info_is_well_formed(field: FieldInput, sr: Option<RenameRule>, dr: Option<RenameRule>, f: FieldView)
    requires
        field_info_of(field, sr, dr) == Ok::<FieldView, (DeriveErrorKind, Seq<char>)>(f),
    ensures
        mentions_enum(f.kind) ==> f.enum_path is Some,
        f.kind is Optional ==> f.option_inner is Some,
{
    lemma_kind_of_plain(field.ty);
    let base = kind_of(field.ty)->Ok_0;
    lemma_with_enum_shape(base);
    assert(!mentions_enum(Kind::Message));
    assert(!mentions_enum(Kind::Optional(Box::new(Kind::Message))));
}

/// A oneof variant's kind holds an enumeration only with the enumeration's path.
pub proof fn law_variant_enum_has_path(v: VariantInput, ty: TypeRepr, k: Kind, p: Option<Seq<char>>)
    requires
        variant_value_of(v) == Ok::<_, (DeriveErrorKind, Seq<char>)>((ty, k, p)),
    ensures
        mentions_enum(k) ==> p is Some,
{
    lemma_kind_of_plain(ty);
}

/// Which names read a protobuf enumeration variant: none, and not its
/// number either, when it is skipped on reading; otherwise each of its
/// aliases (whether or not it is renamed), its rename, and its protobuf name
/// only when it has no rename; no other name. It is written under its
/// rename, else its protobuf name, unless writing it is refused.
pub proof fn law_enum_variant_read_names(v: EnumVariantView)
    ensures
        v.skip_deserializing ==> {
            &&& enum_variant_plan_of(v).read_names.len() == 0
            &&& !enum_variant_plan_of(v).reads_number
            &&& !enum_variant_plan_of(v).reads_proto_name
        },
        !v.skip_deserializing ==> {
            &&& forall|i: int| 0 <= i < v.aliases.len() ==> enum_variant_plan_of(v).read_names.contains(#[trigger] v.aliases[i])
            &&& v.deserialize_name matches Some(n) ==> enum_variant_plan_of(v).read_names.contains(n)
            &&& enum_variant_plan_of(v).reads_number
            &&& enum_variant_plan_of(v).reads_proto_name <==> v.deserialize_name is None
        },
        forall|x: Seq<char>| #[trigger] enum_variant_plan_of(v).read_names.contains(x)
            ==> v.deserialize_name == Some(x) || v.aliases.contains(x),
        enum_variant_plan_of(v).write == (if v.skip_serializing {
            EnumWriteView::Refuse
        } else if let Some(n) = v.serialize_name {
            EnumWriteView::Name(n)
        } else {
            EnumWriteView::ProtoName
        }),
{
    let p = enum_variant_plan_of(v);
    if !v.skip_deserializing {
        let head: Seq<Seq<char>> = match v.deserialize_name {
            Some(n) => seq![n],
            None => Seq::empty(),
        };
        assert(p.read_names == head + v.aliases);
        assert forall|i: int| 0 <= i < v.aliases.len() implies p.read_names.contains(#[trigger] v.aliases[i]) by {
            assert(p.read_names[head.len() + i] == v.aliases[i]);
        }
        if let Some(n) = v.deserialize_name {
            assert(p.read_names[0] == n);
        }
        assert forall|x: Seq<char>| #[trigger] p.read_names.contains(x) implies v.deserialize_name == Some(x) || v.aliases.contains(x) by {
            let j = choose|j: int| 0 <= j < p.read_names.len() && p.read_names[j] == x;
            if j >= head.len() {
                assert(v.aliases[j - head.len()] == x);
            }
        }
    }
}

/// Which keys read a oneof variant: none when it is skipped on reading;
/// otherwise its JSON name, its protobuf name when that differs, and each of
/// its aliases; no other key.
pub proof fn law_oneof_variant_read_names(v: VariantView)
    ensures
        v.skip_deserializing ==> oneof_variant_plan_of(v).read_names.len() == 0,
        !v.skip_deserializing ==> {
            &&& oneof_variant_plan_of(v).read_names.contains(v.deserialize_name)
            &&& v.with_proto ==> oneof_variant_plan_of(v).read_names.contains(v.proto_name)
            &&& forall|i: int| 0 <= i < v.aliases.len() ==> oneof_variant_plan_of(v).read_names.contains(#[trigger] v.aliases[i])
        },
        forall|x: Seq<char>| #[trigger] oneof_variant_plan_of(v).read_names.contains(x)
            ==> x == v.deserialize_name || (v.with_proto && x == v.proto_name) || v.aliases.contains(x),
        oneof_variant_plan_of(v).refuse_write == v.skip_serializing,
{
    let p = oneof_variant_plan_of(v);
    if !v.skip_deserializing {
        let head: Seq<Seq<char>> = seq![v.deserialize_name] + (if v.with_proto { seq![v.proto_name] } else { Seq::empty() });
        assert(p.read_names == head + v.aliases);
        assert(p.read_names[0] == v.deserialize_name);
        if v.with_proto {
            assert(p.read_names[1] == v.proto_name);
        }
        assert forall|i: int| 0 <= i < v.aliases.len() implies p.read_names.contains(#[trigger] v.aliases[i]) by {
            assert(p.read_names[head.len() + i] == v.aliases[i]);
        }
        assert forall|x: Seq<char>| #[trigger] p.read_names.contains(x) implies x == v.deserialize_name || (v.with_proto && x == v.proto_name) || v.aliases.contains(x) by {
            let j = choose|j: int| 0 <= j < p.read_names.len() && p.read_names[j] == x;
            if j >= head.len() {
                assert(v.aliases[j - head.len()] == x);
            }
        }
    }
}

} // verus!
