//! The order in which the generated code handles the keys of an object it
//! reads, and the order in which it writes the entries of an object.
use vstd::prelude::*;
use crate::plan::{DeserializeEntry, FieldRole, SerializeEntry};
use crate::shape::CountRule;

verus! {

/// Who is asked about a key of an object that is read, in the order of the
/// plan's list: the first that takes the key gets it.
#[derive(Clone, Copy, Debug, PartialEq, Eq, Structural)]
pub enum KeyRoute {
    /// The container's `tag` key.
    Tag,
    /// The oneof type of field `i`.
    Oneof(usize),
    /// The names (JSON name, proto name, aliases) of the read field `i`.
    Field(usize),
    /// The message type of the flattened field `i`.
    Flatten(usize),
}

/// The kinds of field that take keys, one group after the other.
#[derive(Clone, Copy, Debug, PartialEq, Eq, Structural)]
pub enum RouteGroup {
    Oneof,
    Field,
    Flatten,
}

/// Whether a field with this role belongs to the group.
pub open spec fn in_group(role: FieldRole, g: RouteGroup) -> bool {
    match g {
        RouteGroup::Oneof => role is Oneof,
        RouteGroup::Field => role is Read,
        RouteGroup::Flatten => role is Flatten,
    }
}

/// The route of field `i` in group `g`.
pub open spec fn group_route(g: RouteGroup, i: int) -> KeyRoute {
    match g {
        RouteGroup::Oneof => KeyRoute::Oneof(i as usize),
        RouteGroup::Field => KeyRoute::Field(i as usize),
        RouteGroup::Flatten => KeyRoute::Flatten(i as usize),
    }
}

/// The routes of group `g` among the first `n` fields, in declaration order.
pub open spec fn group_routes(es: Seq<DeserializeEntry>, g: RouteGroup, n: int) -> Seq<KeyRoute>
    decreases n,
{
    if n <= 0 {
        Seq::empty()
    } else if in_group(es[n - 1].role, g) {
        group_routes(es, g, n - 1).push(group_route(g, n - 1))
    } else {
        group_routes(es, g, n - 1)
    }
}

/// The reader's order: the tag when there is one, then the oneof fields,
/// then the read fields, then the flattened fields, each group in
/// declaration order. Skipped fields take no key.
pub open spec fn routes_of(has_tag: bool, es: Seq<DeserializeEntry>) -> Seq<KeyRoute> {
    let n = es.len() as int;
    (if has_tag { seq![KeyRoute::Tag] } else { Seq::empty() })
        + group_routes(es, RouteGroup::Oneof, n)
        + group_routes(es, RouteGroup::Field, n)
        + group_routes(es, RouteGroup::Flatten, n)
}

fn push_group(out: &mut Vec<KeyRoute>, entries: &Vec<DeserializeEntry>, g: RouteGroup)
    ensures
        final(out)@ == old(out)@ + group_routes(entries@, g, entries@.len() as int),
{
    let ghost start = out@;
    let mut k: usize = 0;
    while k < entries.len()
        invariant
            k <= entries.len(),
            out@ == start + group_routes(entries@, g, k as int),
        decreases entries.len() - k,
    {
        let role = entries[k].role;
        let take = match g {
            RouteGroup::Oneof => matches!(role, FieldRole::Oneof),
            RouteGroup::Field => matches!(role, FieldRole::Read(_)),
            RouteGroup::Flatten => matches!(role, FieldRole::Flatten { .. }),
        };
        if take {
            let route = match g {
                RouteGroup::Oneof => KeyRoute::Oneof(k),
                RouteGroup::Field => KeyRoute::Field(k),
                RouteGroup::Flatten => KeyRoute::Flatten(k),
            };
            out.push(route);
            assert(out@ == start + group_routes(entries@, g, k + 1));
        }
        k = k + 1;
    }
}

/// The order in which the reader of an object hands out its keys.
pub fn plan_routes(has_tag: bool, entries: &Vec<DeserializeEntry>) -> (r: Vec<KeyRoute>)
    ensures
        r@ == routes_of(has_tag, entries@),
{
    let mut out: Vec<KeyRoute> = Vec::new();
    if has_tag {
        out.push(KeyRoute::Tag);
    }
    assert(out@ == (if has_tag { seq![KeyRoute::Tag] } else { Seq::<KeyRoute>::empty() }));
    push_group(&mut out, entries, RouteGroup::Oneof);
    push_group(&mut out, entries, RouteGroup::Field);
    push_group(&mut out, entries, RouteGroup::Flatten);
    out
}

/// What the reader of an object does with a key that nothing takes.
#[derive(Clone, Copy, Debug, PartialEq, Eq, Structural)]
pub enum UnknownKey {
    /// Fails with serde's unknown-field error (`deny_unknown_fields`).
    Refuse,
    /// Reads the value and drops it.
    Skip,
}

/// `deny_unknown_fields` refuses unknown keys; without it they are skipped.
pub open spec fn unknown_key_of(deny_unknown_fields: bool) -> UnknownKey {
    if deny_unknown_fields { UnknownKey::Refuse } else { UnknownKey::Skip }
}

/// The reader's answer to an unknown key.
pub fn unknown_key(deny_unknown_fields: bool) -> (r: UnknownKey)
    ensures
        r == unknown_key_of(deny_unknown_fields),
{
    if deny_unknown_fields { UnknownKey::Refuse } else { UnknownKey::Skip }
}

/// One step of writing an object.
#[derive(Clone, Copy, Debug, PartialEq, Eq, Structural)]
pub enum WriteStep {
    /// The container's `tag` entry, with the container's name as its value.
    Tag,
    /// The entry (or, flattened, the entries) of field `i`.
    Field(usize),
}

/// The fields among the first `n` that are written, in declaration order.
pub open spec fn field_writes(es: Seq<SerializeEntry>, n: int) -> Seq<WriteStep>
    decreases n,
{
    if n <= 0 {
        Seq::empty()
    } else if es[n - 1].skipped {
        field_writes(es, n - 1)
    } else {
        field_writes(es, n - 1).push(WriteStep::Field((n - 1) as usize))
    }
}

/// The writer's order: the tag first when there is one, then every field
/// that is not skipped, in declaration order.
pub open spec fn writes_of(has_tag: bool, es: Seq<SerializeEntry>) -> Seq<WriteStep> {
    (if has_tag { seq![WriteStep::Tag] } else { Seq::empty() }) + field_writes(es, es.len() as int)
}

/// The order in which an object is written.
pub fn plan_writes(has_tag: bool, entries: &Vec<SerializeEntry>) -> (r: Vec<WriteStep>)
    ensures
        r@ == writes_of(has_tag, entries@),
{
    let mut out: Vec<WriteStep> = Vec::new();
    if has_tag {
        out.push(WriteStep::Tag);
    }
    let ghost start = out@;
    assert(start == (if has_tag { seq![WriteStep::Tag] } else { Seq::<WriteStep>::empty() }));
    let mut k: usize = 0;
    while k < entries.len()
        invariant
            k <= entries.len(),
            out@ == start + field_writes(entries@, k as int),
        decreases entries.len() - k,
    {
        if !entries[k].skipped {
            out.push(WriteStep::Field(k));
            assert(out@ == start + field_writes(entries@, k + 1));
        }
        k = k + 1;
    }
    out
}

/// The length announced to a struct serializer, field by field: each field
/// that is written, in declaration order, with the rule that says when it
/// adds one (the tag, when there is one, always adds one).
pub open spec fn field_counts(es: Seq<SerializeEntry>, n: int) -> Seq<(usize, CountRule)>
    decreases n,
{
    if n <= 0 {
        Seq::empty()
    } else if es[n - 1].skipped {
        field_counts(es, n - 1)
    } else {
        field_counts(es, n - 1).push(((n - 1) as usize, es[n - 1].count))
    }
}

/// The counting steps of an object's entries.
pub fn plan_counts(entries: &Vec<SerializeEntry>) -> (r: Vec<(usize, CountRule)>)
    ensures
        r@ == field_counts(entries@, entries@.len() as int),
{
    let mut out: Vec<(usize, CountRule)> = Vec::new();
    let mut k: usize = 0;
    while k < entries.len()
        invariant
            k <= entries.len(),
            out@ == field_counts(entries@, k as int),
        decreases entries.len() - k,
    {
        if !entries[k].skipped {
            out.push((k, entries[k].count));
        }
        k = k + 1;
    }
    out
}

} // verus!
