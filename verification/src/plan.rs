//! What the derive writes for a whole struct or enum, and on which inputs
//! it refuses to write anything.
use vstd::prelude::*;
use crate::attrs::{
    opt_view, strings_view, CanonicalView,
    container_attrs_of, parse_canonical_attrs, parse_container_attrs, parse_prost_attrs,
    canonical_attrs_of, prost_attrs_of, AttrPlace, ContainerAttrs, ContainerDefault, ContainerView,
    DefaultView, DeserializeVia, DeserializeViaView, SerializeVia, SerializeViaView,
};
use crate::error::{err_view, plain, DeriveError, DeriveErrorKind};
use crate::field::{field_info_of, field_name, name_for_variant, named, FieldInfo, FieldView};
use crate::input::{DataInput, DeriveInput, FieldInput, FieldsInput, VariantInput};
use crate::dispatch::{field_counts, plan_counts, plan_routes, plan_writes, routes_of, unknown_key, unknown_key_of, writes_of, KeyRoute, UnknownKey, WriteStep};
use crate::meta::{path_is, path_is_ident, AttrArgs, Attribute};
use crate::naming::{renamed, RenameRule};
use crate::shape::{
    serialize_value_wrap, wrap_of, ValueWrap,
    count_rule_of, deserialize_read, deserialize_transparent_field, init_field, init_plan_of,
    read_plan_of, serialize_field, serialize_plan_of, serialize_transparent_field,
    serialized_field_count, transparent_read_of, transparent_serialize_of, CountRule, InitPlan,
    ReadPlan, SerializeFieldPlan, TransparentReadPlan, TransparentSerializePlan,
};
use crate::types::{apply_enum, classify_type, kind_of, with_enum, Kind, TypeRepr};

verus! {

/// The views of a list of fields.
pub open spec fn field_views(fields: Seq<FieldInfo>) -> Seq<FieldView> {
    fields.map_values(|f: FieldInfo| f@)
}

proof fn lemma_field_views_push(fields: Seq<FieldInfo>, f: FieldInfo)
    ensures
        field_views(fields.push(f)) == field_views(fields).push(f@),
{
    assert(field_views(fields.push(f)) =~= field_views(fields).push(f@));
}

/// The fields from index `k` on, read one by one; the first refused field's
/// error ends the reading.
pub open spec fn fields_from(fields: Seq<FieldInput>, k: int, serialize_rule: Option<RenameRule>, deserialize_rule: Option<RenameRule>) -> Result<Seq<FieldView>, (DeriveErrorKind, Seq<char>)>
    decreases fields.len() - k,
{
    if k < 0 || k >= fields.len() {
        Ok(Seq::empty())
    } else {
        match field_info_of(fields[k], serialize_rule, deserialize_rule) {
            Err(e) => Err(e),
            Ok(f) => match fields_from(fields, k + 1, serialize_rule, deserialize_rule) {
                Err(e) => Err(e),
                Ok(rest) => Ok(seq![f] + rest),
            },
        }
    }
}

/// The fields of a struct: only named fields are supported.
pub open spec fn fields_of(fields: FieldsInput, serialize_rule: Option<RenameRule>, deserialize_rule: Option<RenameRule>) -> Result<Seq<FieldView>, (DeriveErrorKind, Seq<char>)> {
    match fields {
        FieldsInput::Named(named) => fields_from(named@, 0, serialize_rule, deserialize_rule),
        _ => Err(plain(DeriveErrorKind::RequiresNamedFields)),
    }
}

/// `extract_fields`: reads the named fields of a struct in declaration order.
pub fn extract_fields<'a>(fields: &'a FieldsInput, container_attrs: &ContainerAttrs) -> (r: Result<Vec<FieldInfo<'a>>, DeriveError>)
    ensures
        match r {
            Ok(v) => fields_of(*fields, container_attrs.serialize_rename_all, container_attrs.deserialize_rename_all)
                == Ok::<Seq<FieldView>, (DeriveErrorKind, Seq<char>)>(field_views(v@)),
            Err(e) => fields_of(*fields, container_attrs.serialize_rename_all, container_attrs.deserialize_rename_all)
                == Err::<Seq<FieldView>, _>(err_view(e)),
        },
{
    let named = match fields {
        FieldsInput::Named(named) => named,
        _ => { return Err(DeriveError::new(DeriveErrorKind::RequiresNamedFields)); },
    };
    let ghost sr = container_attrs.serialize_rename_all;
    let ghost dr = container_attrs.deserialize_rename_all;
    let mut infos: Vec<FieldInfo<'a>> = Vec::new();
    let mut k: usize = 0;
    while k < named.len()
        invariant
            k <= named.len(),
            *fields == FieldsInput::Named(*named),
            sr == container_attrs.serialize_rename_all,
            dr == container_attrs.deserialize_rename_all,
            forall|i: int| 0 <= i < k ==> field_info_of(named@[i], sr, dr) == Ok::<FieldView, (DeriveErrorKind, Seq<char>)>(#[trigger] field_views(infos@)[i]),
            field_views(infos@).len() == k,
        decreases named.len() - k,
    {
        match FieldInfo::from_field(&named[k], container_attrs) {
            Ok(info) => {
                proof { lemma_field_views_push(infos@, info); }
                infos.push(info);
            },
            Err(e) => {
                proof { lemma_fields_error(named@, k as int, sr, dr, field_views(infos@), err_view(e)); }
                return Err(e);
            },
        }
        k = k + 1;
    }
    proof { lemma_fields_ok(named@, sr, dr, field_views(infos@)); }
    Ok(infos)
}

proof fn lemma_fields_error(fields: Seq<FieldInput>, k: int, sr: Option<RenameRule>, dr: Option<RenameRule>, done: Seq<FieldView>, e: (DeriveErrorKind, Seq<char>))
    requires
        0 <= k < fields.len(),
        done.len() == k,
        forall|i: int| 0 <= i < k ==> field_info_of(fields[i], sr, dr) == Ok::<FieldView, (DeriveErrorKind, Seq<char>)>(#[trigger] done[i]),
        field_info_of(fields[k], sr, dr) == Err::<FieldView, _>(e),
    ensures
        fields_from(fields, 0, sr, dr) == Err::<Seq<FieldView>, _>(e),
    decreases k,
{
    lemma_fields_error_from(fields, 0, k, sr, dr, done, e);
}

proof fn lemma_fields_error_from(fields: Seq<FieldInput>, j: int, k: int, sr: Option<RenameRule>, dr: Option<RenameRule>, done: Seq<FieldView>, e: (DeriveErrorKind, Seq<char>))
    requires
        0 <= j <= k < fields.len(),
        done.len() == k,
        forall|i: int| 0 <= i < k ==> field_info_of(fields[i], sr, dr) == Ok::<FieldView, (DeriveErrorKind, Seq<char>)>(#[trigger] done[i]),
        field_info_of(fields[k], sr, dr) == Err::<FieldView, _>(e),
    ensures
        fields_from(fields, j, sr, dr) == Err::<Seq<FieldView>, _>(e),
    decreases k - j,
{
    if j < k {
        lemma_fields_error_from(fields, j + 1, k, sr, dr, done, e);
        assert(field_info_of(fields[j], sr, dr) == Ok::<FieldView, (DeriveErrorKind, Seq<char>)>(done[j]));
    }
}

proof fn lemma_fields_ok(fields: Seq<FieldInput>, sr: Option<RenameRule>, dr: Option<RenameRule>, done: Seq<FieldView>)
    requires
        done.len() == fields.len(),
        forall|i: int| 0 <= i < fields.len() ==> field_info_of(fields[i], sr, dr) == Ok::<FieldView, (DeriveErrorKind, Seq<char>)>(#[trigger] done[i]),
    ensures
        fields_from(fields, 0, sr, dr) == Ok::<Seq<FieldView>, (DeriveErrorKind, Seq<char>)>(done),
{
    lemma_fields_ok_from(fields, 0, sr, dr, done);
    assert(done.subrange(0, done.len() as int) =~= done);
}

proof fn lemma_fields_ok_from(fields: Seq<FieldInput>, j: int, sr: Option<RenameRule>, dr: Option<RenameRule>, done: Seq<FieldView>)
    requires
        0 <= j <= fields.len(),
        done.len() == fields.len(),
        forall|i: int| 0 <= i < fields.len() ==> field_info_of(fields[i], sr, dr) == Ok::<FieldView, (DeriveErrorKind, Seq<char>)>(#[trigger] done[i]),
    ensures
        fields_from(fields, j, sr, dr) == Ok::<Seq<FieldView>, (DeriveErrorKind, Seq<char>)>(done.subrange(j, done.len() as int)),
    decreases fields.len() - j,
{
    if j < fields.len() {
        lemma_fields_ok_from(fields, j + 1, sr, dr, done);
        assert(field_info_of(fields[j], sr, dr) == Ok::<FieldView, (DeriveErrorKind, Seq<char>)>(done[j]));
        assert(seq![done[j]] + done.subrange(j + 1, done.len() as int) =~= done.subrange(j, done.len() as int));
    } else {
        assert(done.subrange(j, done.len() as int) =~= Seq::<FieldView>::empty());
    }
}

/// Applies `f` to each item from index `k` on; the first error ends it.
pub open spec fn map_all<A, B>(xs: Seq<A>, f: spec_fn(A) -> Result<B, (DeriveErrorKind, Seq<char>)>, k: int) -> Result<Seq<B>, (DeriveErrorKind, Seq<char>)>
    decreases xs.len() - k,
{
    if k < 0 || k >= xs.len() {
        Ok(Seq::empty())
    } else {
        match f(xs[k]) {
            Err(e) => Err(e),
            Ok(y) => match map_all(xs, f, k + 1) {
                Err(e) => Err(e),
                Ok(rest) => Ok(seq![y] + rest),
            },
        }
    }
}

proof fn lemma_map_all_ok<A, B>(xs: Seq<A>, f: spec_fn(A) -> Result<B, (DeriveErrorKind, Seq<char>)>, ys: Seq<B>, j: int)
    requires
        0 <= j <= xs.len(),
        ys.len() == xs.len(),
        forall|i: int| 0 <= i < xs.len() ==> f(xs[i]) == Ok::<B, (DeriveErrorKind, Seq<char>)>(#[trigger] ys[i]),
    ensures
        map_all(xs, f, j) == Ok::<Seq<B>, (DeriveErrorKind, Seq<char>)>(ys.subrange(j, ys.len() as int)),
    decreases xs.len() - j,
{
    if j < xs.len() {
        lemma_map_all_ok(xs, f, ys, j + 1);
        assert(f(xs[j]) == Ok::<B, (DeriveErrorKind, Seq<char>)>(ys[j]));
        assert(seq![ys[j]] + ys.subrange(j + 1, ys.len() as int) =~= ys.subrange(j, ys.len() as int));
    } else {
        assert(ys.subrange(j, ys.len() as int) =~= Seq::<B>::empty());
    }
}

proof fn lemma_map_all_err<A, B>(xs: Seq<A>, f: spec_fn(A) -> Result<B, (DeriveErrorKind, Seq<char>)>, ys: Seq<B>, k: int, e: (DeriveErrorKind, Seq<char>), j: int)
    requires
        0 <= j <= k < xs.len(),
        ys.len() == k,
        forall|i: int| 0 <= i < k ==> f(xs[i]) == Ok::<B, (DeriveErrorKind, Seq<char>)>(#[trigger] ys[i]),
        f(xs[k]) == Err::<B, _>(e),
    ensures
        map_all(xs, f, j) == Err::<Seq<B>, _>(e),
    decreases k - j,
{
    if j < k {
        lemma_map_all_err(xs, f, ys, k, e, j + 1);
        assert(f(xs[j]) == Ok::<B, (DeriveErrorKind, Seq<char>)>(ys[j]));
    }
}

/// How a field's key is recognised among the keys of an object.
#[derive(Clone, Copy, Debug, PartialEq, Eq, Structural)]
pub enum MatchArm {
    /// Any key of the flattened message.
    Flatten,
    /// Any key of the oneof.
    Oneof,
    /// The field's JSON name and its aliases, and also its proto name when
    /// `with_proto`.
    Names { with_proto: bool },
    /// No key: the field is never read.
    Skipped,
}

/// `field_match_arm`: a oneof field must be an `Option`.
pub open spec fn match_arm_of(f: FieldView) -> Result<MatchArm, (DeriveErrorKind, Seq<char>)> {
    if f.skip_deserializing {
        Ok(MatchArm::Skipped)
    } else if f.is_flatten {
        Ok(MatchArm::Flatten)
    } else if f.is_oneof {
        if f.oneof_type is None {
            Err(plain(DeriveErrorKind::OneofFieldNotOption))
        } else {
            Ok(MatchArm::Oneof)
        }
    } else {
        Ok(MatchArm::Names { with_proto: f.deserialize_name != f.proto_name })
    }
}

pub fn field_match_arm(field: &FieldInfo) -> (r: Result<MatchArm, DeriveError>)
    ensures
        match r {
            Ok(a) => match_arm_of(field@) == Ok::<MatchArm, (DeriveErrorKind, Seq<char>)>(a),
            Err(e) => match_arm_of(field@) == Err::<MatchArm, _>(err_view(e)),
        },
{
    if field.skip_deserializing {
        return Ok(MatchArm::Skipped);
    }
    if field.is_flatten {
        return Ok(MatchArm::Flatten);
    }
    if field.is_oneof {
        if field.oneof_type.is_none() {
            return Err(DeriveError::new(DeriveErrorKind::OneofFieldNotOption));
        }
        return Ok(MatchArm::Oneof);
    }
    let same = field.deserialize_name == field.proto_name;
    Ok(MatchArm::Names { with_proto: !same })
}

/// What the serializer derive writes for one field of a message.
#[derive(Clone, Copy, Debug, PartialEq, Eq, Structural)]
pub struct SerializeEntry {
    pub write: SerializeFieldPlan,
    pub arm: MatchArm,
    pub count: CountRule,
    /// Never written, never counted (`skip_serializing`).
    pub skipped: bool,
}

pub open spec fn serialize_entry_of(f: FieldView) -> Result<SerializeEntry, (DeriveErrorKind, Seq<char>)> {
    match match_arm_of(f) {
        Ok(arm) => Ok(SerializeEntry {
            write: serialize_plan_of(f.kind, f.is_flatten, f.is_oneof),
            arm,
            count: count_rule_of(f.kind, f.is_oneof),
            skipped: f.skip_serializing,
        }),
        Err(e) => Err(e),
    }
}

/// The one-field rule of transparent structs.
pub open spec fn transparent_check(fs: Seq<FieldView>) -> Result<(), (DeriveErrorKind, Seq<char>)> {
    if fs.len() == 0 {
        Err(plain(DeriveErrorKind::TransparentNoField))
    } else if fs.len() != 1 {
        Err(plain(DeriveErrorKind::TransparentNotOneField))
    } else if fs[0].is_oneof || fs[0].is_flatten {
        Err(plain(DeriveErrorKind::TransparentFieldOneofOrFlatten))
    } else {
        Ok(())
    }
}

fn check_transparent_fields(fields: &Vec<FieldInfo>) -> (r: Result<(), DeriveError>)
    ensures
        match r {
            Ok(_) => transparent_check(field_views(fields@)) == Ok::<(), (DeriveErrorKind, Seq<char>)>(()),
            Err(e) => transparent_check(field_views(fields@)) == Err::<(), _>(err_view(e)),
        },
{
    if fields.len() == 0 {
        return Err(DeriveError::new(DeriveErrorKind::TransparentNoField));
    }
    if fields.len() != 1 {
        return Err(DeriveError::new(DeriveErrorKind::TransparentNotOneField));
    }
    if fields[0].is_oneof || fields[0].is_flatten {
        return Err(DeriveError::new(DeriveErrorKind::TransparentFieldOneofOrFlatten));
    }
    Ok(())
}

/// Whether any field is flattened.
pub open spec fn any_flatten(fs: Seq<FieldView>) -> bool {
    exists|i: int| 0 <= i < fs.len() && #[trigger] fs[i].is_flatten
}

fn has_flatten_field(fields: &Vec<FieldInfo>) -> (r: bool)
    ensures
        r == any_flatten(field_views(fields@)),
{
    let mut i: usize = 0;
    while i < fields.len()
        invariant
            i <= fields.len(),
            forall|j: int| 0 <= j < i ==> !(#[trigger] field_views(fields@)[j]).is_flatten,
        decreases fields.len() - i,
    {
        if fields[i].is_flatten {
            assert(field_views(fields@)[i as int].is_flatten);
            return true;
        }
        i = i + 1;
    }
    false
}

/// How a struct is serialized.
#[derive(Clone, Copy, Debug, PartialEq, Eq, Structural)]
pub enum SerializeMode {
    /// Through the `serde(into = ...)` type.
    Conversion,
    /// As its single field.
    Transparent(TransparentSerializePlan),
    /// As an object of its fields: a map when a field is flattened, a struct otherwise.
    Object { has_flatten: bool },
}

/// The serializer derive's plan for a struct: its settings, its fields in
/// declaration order (none for a conversion), the mode, and one entry per
/// field for an object.
pub struct SerializeStruct<'a> {
    pub container: ContainerAttrs,
    pub fields: Vec<FieldInfo<'a>>,
    pub mode: SerializeMode,
    pub entries: Vec<SerializeEntry>,
    /// For an object, the order in which its entries are written.
    pub writes: Vec<WriteStep>,
    /// For an object, the fields that add to the announced length, with the
    /// rule of each (the tag adds one besides).
    pub counts: Vec<(usize, CountRule)>,
}

/// The counting steps of a plan: [`field_counts`] for an object, nothing otherwise.
pub open spec fn counts_for(m: SerializeMode, es: Seq<SerializeEntry>) -> Seq<(usize, CountRule)> {
    if m is Object { field_counts(es, es.len() as int) } else { Seq::empty() }
}

/// The write order of a plan: [`writes_of`] for an object, nothing otherwise.
pub open spec fn writes_for(c: ContainerView, m: SerializeMode, es: Seq<SerializeEntry>) -> Seq<WriteStep> {
    if m is Object { writes_of(c.tag is Some, es) } else { Seq::empty() }
}

/// A struct serialization plan as plain values.
pub open spec fn serialize_struct_view(p: SerializeStruct) -> (ContainerView, Seq<FieldView>, SerializeMode, Seq<SerializeEntry>) {
    (p.container@, field_views(p.fields@), p.mode, p.entries@)
}

/// `expand_serialize_struct`: a conversion when `into` is set (the fields are
/// not read); else the fields, then the transparent rules (no `tag`, exactly
/// one field that is neither oneof nor flattened), else one entry per field.
pub open spec fn serialize_struct_of(ident: Seq<char>, attrs: Seq<Attribute>, fields: FieldsInput) -> Result<(ContainerView, Seq<FieldView>, SerializeMode, Seq<SerializeEntry>), (DeriveErrorKind, Seq<char>)> {
    match container_attrs_of(ident, attrs) {
        Err(e) => Err(e),
        Ok(c) => if c.serialize_via is Into {
            Ok((c, Seq::empty(), SerializeMode::Conversion, Seq::empty()))
        } else {
            match fields_of(fields, c.serialize_rename_all, c.deserialize_rename_all) {
                Err(e) => Err(e),
                Ok(fs) => if c.transparent {
                    if c.tag is Some {
                        Err(plain(DeriveErrorKind::TagOnTransparent))
                    } else {
                        match transparent_check(fs) {
                            Err(e) => Err(e),
                            Ok(_) => Ok((c, fs, SerializeMode::Transparent(transparent_serialize_of(fs[0].kind)), Seq::empty())),
                        }
                    }
                } else {
                    match map_all(fs, |f: FieldView| serialize_entry_of(f), 0) {
                        Err(e) => Err(e),
                        Ok(es) => Ok((c, fs, SerializeMode::Object { has_flatten: any_flatten(fs) }, es)),
                    }
                },
            }
        },
    }
}

/// Plans the serializer of a struct.
#[verifier::loop_isolation(false)]
pub fn expand_serialize_struct<'a>(ident: &str, attrs: &Vec<Attribute>, fields: &'a FieldsInput) -> (r: Result<SerializeStruct<'a>, DeriveError>)
    ensures
        match r {
            Ok(p) => serialize_struct_of(ident@, attrs@, *fields) == Ok::<_, (DeriveErrorKind, Seq<char>)>(serialize_struct_view(p))
                && p.writes@ == writes_for(p.container@, p.mode, p.entries@)
                && p.counts@ == counts_for(p.mode, p.entries@),
            Err(e) => serialize_struct_of(ident@, attrs@, *fields) == Err::<(ContainerView, Seq<FieldView>, SerializeMode, Seq<SerializeEntry>), _>(err_view(e)),
        },
{
    let container = match parse_container_attrs(ident, attrs) {
        Ok(c) => c,
        Err(e) => { return Err(e); },
    };
    if matches!(container.serialize_via, SerializeVia::Into(_)) {
        let r = SerializeStruct { container, fields: Vec::new(), mode: SerializeMode::Conversion, entries: Vec::new(), writes: Vec::new(), counts: Vec::new() };
        assert(field_views(r.fields@) =~= Seq::<FieldView>::empty());
        return Ok(r);
    }
    let infos = match extract_fields(fields, &container) {
        Ok(v) => v,
        Err(e) => { return Err(e); },
    };
    if container.transparent {
        if container.tag.is_some() {
            return Err(DeriveError::new(DeriveErrorKind::TagOnTransparent));
        }
        match check_transparent_fields(&infos) {
            Ok(_) => {},
            Err(e) => { return Err(e); },
        }
        let plan = serialize_transparent_field(&infos[0]);
        return Ok(SerializeStruct { container, fields: infos, mode: SerializeMode::Transparent(plan), entries: Vec::new(), writes: Vec::new(), counts: Vec::new() });
    }
    let ghost fs = field_views(infos@);
    let ghost f = |f: FieldView| serialize_entry_of(f);
    let mut entries: Vec<SerializeEntry> = Vec::new();
    let mut k: usize = 0;
    while k < infos.len()
        invariant
            k <= infos.len(),
            fs == field_views(infos@),
            f == (|f: FieldView| serialize_entry_of(f)),
            entries@.len() == k,
            forall|i: int| 0 <= i < k ==> f(fs[i]) == Ok::<SerializeEntry, (DeriveErrorKind, Seq<char>)>(#[trigger] entries@[i]),
        decreases infos.len() - k,
    {
        let write = serialize_field(&infos[k]);
        let arm = match field_match_arm(&infos[k]) {
            Ok(a) => a,
            Err(e) => {
                proof { lemma_map_all_err(fs, f, entries@, k as int, err_view(e), 0); }
                return Err(e);
            },
        };
        let count = serialized_field_count(&infos[k]);
        entries.push(SerializeEntry { write, arm, count, skipped: infos[k].skip_serializing });
        k = k + 1;
    }
    proof {
        lemma_map_all_ok(fs, f, entries@, 0);
        assert(entries@.subrange(0, entries@.len() as int) =~= entries@);
    }
    let has_flatten = has_flatten_field(&infos);
    let writes = plan_writes(container.tag.is_some(), &entries);
    let counts = plan_counts(&entries);
    Ok(SerializeStruct { container, fields: infos, mode: SerializeMode::Object { has_flatten }, entries, writes, counts })
}

/// What a field does when its object is read.
#[derive(Clone, Copy, Debug, PartialEq, Eq, Structural)]
pub enum FieldRole {
    /// Keys of the flattened message are buffered and read as that message
    /// at the end; `optional` for an `Option<Message>`.
    Flatten { optional: bool },
    /// Keys are offered to the oneof type; at most one may be set.
    Oneof,
    /// The field's names are matched and its value read by the plan.
    Read(ReadPlan),
    /// Never read (`skip_deserializing`): its key is an unknown key, the
    /// field keeps its initial value.
    Skipped,
}

/// What the deserializer derive writes for one field of a message.
#[derive(Clone, Copy, Debug, PartialEq, Eq, Structural)]
pub struct DeserializeEntry {
    pub init: InitPlan,
    pub role: FieldRole,
    /// Whether the proto name is matched besides the JSON name.
    pub with_proto: bool,
}

/// An `Option<Message>` kind.
pub open spec fn optional_message(kind: Kind) -> bool {
    kind matches Kind::Optional(inner) && *inner is Message
}

pub open spec fn deserialize_entry_of(f: FieldView, has_default: bool) -> Result<DeserializeEntry, (DeriveErrorKind, Seq<char>)> {
    let init = init_plan_of(f.kind, f.is_oneof, has_default, f.default, f.skip_deserializing);
    let with_proto = f.deserialize_name != f.proto_name;
    if f.skip_deserializing {
        Ok(DeserializeEntry { init, role: FieldRole::Skipped, with_proto })
    } else if f.is_flatten {
        Ok(DeserializeEntry { init, role: FieldRole::Flatten { optional: optional_message(f.kind) }, with_proto })
    } else if f.is_oneof {
        if f.oneof_type is None {
            Err(plain(DeriveErrorKind::OneofFieldNotOption))
        } else {
            Ok(DeserializeEntry { init, role: FieldRole::Oneof, with_proto })
        }
    } else {
        match read_plan_of(f.kind, f.option_inner, f.vec_inner) {
            Ok(p) => Ok(DeserializeEntry { init, role: FieldRole::Read(p), with_proto }),
            Err(e) => Err(e),
        }
    }
}

fn deserialize_entry(field: &FieldInfo, has_default: bool) -> (r: Result<DeserializeEntry, DeriveError>)
    ensures
        match r {
            Ok(d) => deserialize_entry_of(field@, has_default) == Ok::<DeserializeEntry, (DeriveErrorKind, Seq<char>)>(d),
            Err(e) => deserialize_entry_of(field@, has_default) == Err::<DeserializeEntry, _>(err_view(e)),
        },
{
    let init = init_field(field, has_default);
    let with_proto = !(field.deserialize_name == field.proto_name);
    if field.skip_deserializing {
        return Ok(DeserializeEntry { init, role: FieldRole::Skipped, with_proto });
    }
    if field.is_flatten {
        return Ok(DeserializeEntry { init, role: FieldRole::Flatten { optional: field.is_option_message() }, with_proto });
    }
    if field.is_oneof {
        if field.oneof_type.is_none() {
            return Err(DeriveError::new(DeriveErrorKind::OneofFieldNotOption));
        }
        return Ok(DeserializeEntry { init, role: FieldRole::Oneof, with_proto });
    }
    match deserialize_read(field) {
        Ok(p) => Ok(DeserializeEntry { init, role: FieldRole::Read(p), with_proto }),
        Err(e) => Err(e),
    }
}

/// How a struct is deserialized.
#[derive(Clone, Copy, Debug, PartialEq, Eq, Structural)]
pub enum DeserializeMode {
    /// Through the `serde(from = ...)` or `serde(try_from = ...)` type.
    Conversion,
    /// As its single field.
    Transparent(TransparentReadPlan),
    /// As an object of its fields: from a map when a field is flattened.
    Object { has_flatten: bool },
}

/// The deserializer derive's plan for a struct.
pub struct DeserializeStruct<'a> {
    pub container: ContainerAttrs,
    pub fields: Vec<FieldInfo<'a>>,
    pub mode: DeserializeMode,
    pub entries: Vec<DeserializeEntry>,
    /// For an object, who is asked about each key, in order.
    pub routes: Vec<KeyRoute>,
    /// For an object, what happens to a key that no route takes.
    pub on_unknown: UnknownKey,
}

/// The key order of a plan: [`routes_of`] for an object, nothing otherwise.
pub open spec fn routes_for(c: ContainerView, m: DeserializeMode, es: Seq<DeserializeEntry>) -> Seq<KeyRoute> {
    if m is Object { routes_of(c.tag is Some, es) } else { Seq::empty() }
}

/// A struct deserialization plan as plain values.
pub open spec fn deserialize_struct_view(p: DeserializeStruct) -> (ContainerView, Seq<FieldView>, DeserializeMode, Seq<DeserializeEntry>) {
    (p.container@, field_views(p.fields@), p.mode, p.entries@)
}

/// `expand_deserialize_struct`: a conversion when `from` or `try_from` is
/// set; else the fields, then the transparent rules, then no
/// `deny_unknown_fields` beside a flattened field, then one entry per field.
pub open spec fn deserialize_struct_of(ident: Seq<char>, attrs: Seq<Attribute>, fields: FieldsInput) -> Result<(ContainerView, Seq<FieldView>, DeserializeMode, Seq<DeserializeEntry>), (DeriveErrorKind, Seq<char>)> {
    match container_attrs_of(ident, attrs) {
        Err(e) => Err(e),
        Ok(c) => if !(c.deserialize_via is Direct) {
            Ok((c, Seq::empty(), DeserializeMode::Conversion, Seq::empty()))
        } else {
            match fields_of(fields, c.serialize_rename_all, c.deserialize_rename_all) {
                Err(e) => Err(e),
                Ok(fs) => if c.transparent {
                    if c.tag is Some {
                        Err(plain(DeriveErrorKind::TagOnTransparent))
                    } else {
                        match transparent_check(fs) {
                            Err(e) => Err(e),
                            Ok(_) => match transparent_read_of(fs[0].kind, fs[0].option_inner, fs[0].vec_inner) {
                                Err(e) => Err(e),
                                Ok(p) => Ok((c, fs, DeserializeMode::Transparent(p), Seq::empty())),
                            },
                        }
                    }
                } else if c.deny_unknown_fields && any_flatten(fs) {
                    Err(plain(DeriveErrorKind::DenyUnknownWithFlatten))
                } else {
                    let has_default = !(c.default is Unset);
                    match map_all(fs, |f: FieldView| deserialize_entry_of(f, has_default), 0) {
                        Err(e) => Err(e),
                        Ok(es) => Ok((c, fs, DeserializeMode::Object { has_flatten: any_flatten(fs) }, es)),
                    }
                },
            }
        },
    }
}

/// Plans the deserializer of a struct.
#[verifier::loop_isolation(false)]
pub fn expand_deserialize_struct<'a>(ident: &str, attrs: &Vec<Attribute>, fields: &'a FieldsInput) -> (r: Result<DeserializeStruct<'a>, DeriveError>)
    ensures
        match r {
            Ok(p) => deserialize_struct_of(ident@, attrs@, *fields) == Ok::<_, (DeriveErrorKind, Seq<char>)>(deserialize_struct_view(p))
                && p.routes@ == routes_for(p.container@, p.mode, p.entries@)
                && p.on_unknown == unknown_key_of(p.container.deny_unknown_fields),
            Err(e) => deserialize_struct_of(ident@, attrs@, *fields) == Err::<(ContainerView, Seq<FieldView>, DeserializeMode, Seq<DeserializeEntry>), _>(err_view(e)),
        },
{
    let container = match parse_container_attrs(ident, attrs) {
        Ok(c) => c,
        Err(e) => { return Err(e); },
    };
    if !matches!(container.deserialize_via, DeserializeVia::Direct) {
        let on_unknown = unknown_key(container.deny_unknown_fields);
        let r = DeserializeStruct { container, fields: Vec::new(), mode: DeserializeMode::Conversion, entries: Vec::new(), routes: Vec::new(), on_unknown };
        assert(field_views(r.fields@) =~= Seq::<FieldView>::empty());
        return Ok(r);
    }
    let infos = match extract_fields(fields, &container) {
        Ok(v) => v,
        Err(e) => { return Err(e); },
    };
    let has_flatten = has_flatten_field(&infos);
    if container.transparent {
        if container.tag.is_some() {
            return Err(DeriveError::new(DeriveErrorKind::TagOnTransparent));
        }
        match check_transparent_fields(&infos) {
            Ok(_) => {},
            Err(e) => { return Err(e); },
        }
        let plan = match deserialize_transparent_field(&infos[0]) {
            Ok(p) => p,
            Err(e) => { return Err(e); },
        };
        let on_unknown = unknown_key(container.deny_unknown_fields);
        return Ok(DeserializeStruct { container, fields: infos, mode: DeserializeMode::Transparent(plan), entries: Vec::new(), routes: Vec::new(), on_unknown });
    }
    if container.deny_unknown_fields && has_flatten {
        return Err(DeriveError::new(DeriveErrorKind::DenyUnknownWithFlatten));
    }
    let has_default = !matches!(container.default, ContainerDefault::Unset);
    let ghost fs = field_views(infos@);
    let ghost f = |f: FieldView| deserialize_entry_of(f, has_default);
    let mut entries: Vec<DeserializeEntry> = Vec::new();
    let mut k: usize = 0;
    while k < infos.len()
        invariant
            k <= infos.len(),
            fs == field_views(infos@),
            f == (|f: FieldView| deserialize_entry_of(f, has_default)),
            entries@.len() == k,
            forall|i: int| 0 <= i < k ==> f(fs[i]) == Ok::<DeserializeEntry, (DeriveErrorKind, Seq<char>)>(#[trigger] entries@[i]),
        decreases infos.len() - k,
    {
        match deserialize_entry(&infos[k], has_default) {
            Ok(d) => { entries.push(d); },
            Err(e) => {
                proof { lemma_map_all_err(fs, f, entries@, k as int, err_view(e), 0); }
                return Err(e);
            },
        }
        k = k + 1;
    }
    proof {
        lemma_map_all_ok(fs, f, entries@, 0);
        assert(entries@.subrange(0, entries@.len() as int) =~= entries@);
    }
    let routes = plan_routes(container.tag.is_some(), &entries);
    let on_unknown = unknown_key(container.deny_unknown_fields);
    Ok(DeserializeStruct { container, fields: infos, mode: DeserializeMode::Object { has_flatten }, entries, routes, on_unknown })
}

/// The value type of a oneof variant: a tuple variant with one field.
pub open spec fn variant_type(v: VariantInput) -> Option<TypeRepr> {
    match v.fields {
        FieldsInput::Unnamed(fs) => if fs.len() == 1 { Some(fs@[0].ty) } else { None },
        _ => None,
    }
}

/// `parse_variant`: a oneof variant's value type, its kind (an enumeration
/// where `prost(enumeration)` says so) and its enum path; no variant may
/// itself be marked `oneof`.
pub open spec fn variant_value_of(v: VariantInput) -> Result<(TypeRepr, Kind, Option<Seq<char>>), (DeriveErrorKind, Seq<char>)> {
    match variant_type(v) {
        None => Err(plain(DeriveErrorKind::OneofVariantShape)),
        Some(ty) => match prost_attrs_of(v.attrs@) {
            Err(e) => Err(e),
            Ok(prost) => if prost.is_oneof {
                Err(plain(DeriveErrorKind::OneofAttributeOnVariant))
            } else {
                match kind_of(ty) {
                    Err(e) => Err(e),
                    Ok(k) => Ok((ty, if prost.enum_path is Some { with_enum(k) } else { k }, prost.enum_path)),
                }
            },
        },
    }
}

/// Reads the value of a oneof variant.
pub fn parse_variant<'a>(variant: &'a VariantInput) -> (r: Result<(&'a TypeRepr, Kind, Option<String>), DeriveError>)
    ensures
        match r {
            Ok((t, k, p)) => variant_value_of(*variant) == Ok::<_, (DeriveErrorKind, Seq<char>)>((*t, k, opt_view(p))),
            Err(e) => variant_value_of(*variant) == Err::<(TypeRepr, Kind, Option<Seq<char>>), _>(err_view(e)),
        },
{
    let ty = match &variant.fields {
        FieldsInput::Unnamed(fs) => {
            if fs.len() == 1 {
                &fs[0].ty
            } else {
                return Err(DeriveError::new(DeriveErrorKind::OneofVariantShape));
            }
        },
        _ => { return Err(DeriveError::new(DeriveErrorKind::OneofVariantShape)); },
    };
    let prost = match parse_prost_attrs(&variant.attrs) {
        Ok(p) => p,
        Err(e) => { return Err(e); },
    };
    if prost.is_oneof {
        return Err(DeriveError::new(DeriveErrorKind::OneofAttributeOnVariant));
    }
    let mut kind = match classify_type(ty) {
        Ok(k) => k,
        Err(e) => { return Err(e); },
    };
    if prost.enum_path.is_some() {
        kind = apply_enum(kind);
    }
    Ok((ty, kind, prost.enum_path))
}

/// Whether an attribute list holds a `prost(...)` attribute.
pub open spec fn has_prost_attr(attrs: Seq<Attribute>) -> bool {
    exists|i: int| 0 <= i < attrs.len() && path_is(#[trigger] attrs[i].path@, "prost"@)
}

/// A oneof enum is one whose variants carry `prost(...)` attributes; a
/// protobuf enumeration's variants carry none.
pub open spec fn oneof_enum(variants: Seq<VariantInput>) -> bool {
    exists|i: int| 0 <= i < variants.len() && has_prost_attr(#[trigger] variants[i].attrs@)
}

/// `is_oneof_enum`.
pub fn is_oneof_enum(variants: &Vec<VariantInput>) -> (r: bool)
    ensures
        r == oneof_enum(variants@),
{
    let mut i: usize = 0;
    while i < variants.len()
        invariant
            i <= variants.len(),
            forall|j: int| 0 <= j < i ==> !has_prost_attr(#[trigger] variants@[j].attrs@),
        decreases variants.len() - i,
    {
        let attrs = &variants[i].attrs;
        let mut k: usize = 0;
        while k < attrs.len()
            invariant
                k <= attrs.len(),
                i < variants.len(),
                attrs@ == variants@[i as int].attrs@,
                forall|j: int| 0 <= j < k ==> !path_is(#[trigger] attrs@[j].path@, "prost"@),
            decreases attrs.len() - k,
        {
            if path_is_ident(&attrs[k].path, "prost") {
                assert(has_prost_attr(variants@[i as int].attrs@));
                return true;
            }
            k = k + 1;
        }
        i = i + 1;
    }
    false
}

/// What the derive knows of one oneof variant.
pub struct VariantInfo<'a> {
    pub ident: String,
    pub ty: &'a TypeRepr,
    pub kind: Kind,
    pub enum_path: Option<String>,
    pub serialize_name: String,
    pub deserialize_name: String,
    pub proto_name: String,
    /// How the variant's value is written.
    pub wrap: ValueWrap,
    /// Whether the proto name is matched besides the JSON name.
    pub with_proto: bool,
    /// More names the variant is read by (`alias`), in order.
    pub aliases: Vec<String>,
    /// Writing the variant is an error (`skip` or `skip_serializing`).
    pub skip_serializing: bool,
    /// The variant's keys are not taken when reading (`skip` or `skip_deserializing`).
    pub skip_deserializing: bool,
}

/// [`VariantInfo`] as plain values.
pub struct VariantView {
    pub ident: Seq<char>,
    pub ty: TypeRepr,
    pub kind: Kind,
    pub enum_path: Option<Seq<char>>,
    pub serialize_name: Seq<char>,
    pub deserialize_name: Seq<char>,
    pub proto_name: Seq<char>,
    pub wrap: ValueWrap,
    pub with_proto: bool,
    pub aliases: Seq<Seq<char>>,
    pub skip_serializing: bool,
    pub skip_deserializing: bool,
}

impl<'a> View for VariantInfo<'a> {
    type V = VariantView;

    open spec fn view(&self) -> VariantView {
        VariantView {
            ident: self.ident@,
            ty: *self.ty,
            kind: self.kind,
            enum_path: opt_view(self.enum_path),
            serialize_name: self.serialize_name@,
            deserialize_name: self.deserialize_name@,
            proto_name: self.proto_name@,
            wrap: self.wrap,
            with_proto: self.with_proto,
            aliases: strings_view(self.aliases@),
            skip_serializing: self.skip_serializing,
            skip_deserializing: self.skip_deserializing,
        }
    }
}

/// The views of a list of variants.
pub open spec fn variant_views(vs: Seq<VariantInfo>) -> Seq<VariantView> {
    vs.map_values(|v: VariantInfo| v@)
}

/// One oneof variant (in `expand_oneof_impl`): no `transparent` or `flatten`;
/// its proto name is its `proto_name`, else the camelCase of its identifier;
/// its JSON names follow the field rules (`rename` first); its aliases and
/// skip flags are its own.
pub open spec fn variant_info_of(v: VariantInput, serialize_rule: Option<RenameRule>, deserialize_rule: Option<RenameRule>) -> Result<VariantView, (DeriveErrorKind, Seq<char>)> {
    match canonical_attrs_of(AttrPlace::Variant, v.attrs@) {
        Err(e) => Err(e),
        Ok(attrs) => if attrs.transparent || attrs.flatten {
            Err(plain(DeriveErrorKind::VariantTransparentOrFlatten))
        } else {
            match variant_value_of(v) {
                Err(e) => Err(e),
                Ok((ty, kind, enum_path)) => {
                    let proto_name = match attrs.proto_name {
                        Some(p) => p,
                        None => renamed(RenameRule::CamelCase, v.ident@),
                    };
                    let deserialize_name = named(attrs.rename_deserialize, field_name(v.ident@, attrs, deserialize_rule, proto_name));
                    Ok(VariantView {
                        ident: v.ident@,
                        ty,
                        kind,
                        enum_path,
                        serialize_name: named(attrs.rename_serialize, field_name(v.ident@, attrs, serialize_rule, proto_name)),
                        deserialize_name,
                        proto_name,
                        wrap: wrap_of(kind),
                        with_proto: deserialize_name != proto_name,
                        aliases: attrs.aliases,
                        skip_serializing: attrs.skip_serializing,
                        skip_deserializing: attrs.skip_deserializing,
                    })
                },
            }
        },
    }
}

fn variant_info<'a>(variant: &'a VariantInput, container: &ContainerAttrs) -> (r: Result<VariantInfo<'a>, DeriveError>)
    ensures
        match r {
            Ok(v) => variant_info_of(*variant, container.serialize_rename_all, container.deserialize_rename_all)
                == Ok::<VariantView, (DeriveErrorKind, Seq<char>)>(v@),
            Err(e) => variant_info_of(*variant, container.serialize_rename_all, container.deserialize_rename_all)
                == Err::<VariantView, _>(err_view(e)),
        },
{
    let attrs = match parse_canonical_attrs(AttrPlace::Variant, &variant.attrs) {
        Ok(a) => a,
        Err(e) => { return Err(e); },
    };
    if attrs.transparent || attrs.flatten {
        return Err(DeriveError::new(DeriveErrorKind::VariantTransparentOrFlatten));
    }
    let (ty, kind, enum_path) = match parse_variant(variant) {
        Ok(v) => v,
        Err(e) => { return Err(e); },
    };
    let proto_name = match &attrs.proto_name {
        Some(p) => p.clone(),
        None => RenameRule::CamelCase.apply_to_field(variant.ident.as_str()),
    };
    let serialize_name = match &attrs.rename_serialize {
        Some(n) => n.clone(),
        None => name_for_variant(variant.ident.as_str(), &attrs, container.serialize_rename_all, proto_name.as_str()),
    };
    let deserialize_name = match &attrs.rename_deserialize {
        Some(n) => n.clone(),
        None => name_for_variant(variant.ident.as_str(), &attrs, container.deserialize_rename_all, proto_name.as_str()),
    };
    let wrap = serialize_value_wrap(&kind);
    let with_proto = !(deserialize_name == proto_name);
    Ok(VariantInfo {
        ident: variant.ident.clone(),
        ty,
        kind,
        enum_path,
        serialize_name,
        deserialize_name,
        proto_name,
        wrap,
        with_proto,
        aliases: attrs.aliases,
        skip_serializing: attrs.skip_serializing,
        skip_deserializing: attrs.skip_deserializing,
    })
}

proof fn lemma_variant_views_push(vs: Seq<VariantInfo>, v: VariantInfo)
    ensures
        variant_views(vs.push(v)) == variant_views(vs).push(v@),
{
    assert(variant_views(vs.push(v)) =~= variant_views(vs).push(v@));
}

/// `expand_oneof_impl`: reads every variant of a oneof enum, in order.
#[verifier::loop_isolation(false)]
pub fn expand_oneof_impl<'a>(variants: &'a Vec<VariantInput>, container: &ContainerAttrs) -> (r: Result<Vec<VariantInfo<'a>>, DeriveError>)
    ensures
        match r {
            Ok(vs) => map_all(variants@, |v: VariantInput| variant_info_of(v, container.serialize_rename_all, container.deserialize_rename_all), 0)
                == Ok::<Seq<VariantView>, (DeriveErrorKind, Seq<char>)>(variant_views(vs@)),
            Err(e) => map_all(variants@, |v: VariantInput| variant_info_of(v, container.serialize_rename_all, container.deserialize_rename_all), 0)
                == Err::<Seq<VariantView>, _>(err_view(e)),
        },
{
    let ghost f = |v: VariantInput| variant_info_of(v, container.serialize_rename_all, container.deserialize_rename_all);
    let mut infos: Vec<VariantInfo<'a>> = Vec::new();
    let mut k: usize = 0;
    while k < variants.len()
        invariant
            k <= variants.len(),
            variant_views(infos@).len() == k,
            forall|i: int| 0 <= i < k ==> f(variants@[i]) == Ok::<VariantView, (DeriveErrorKind, Seq<char>)>(#[trigger] variant_views(infos@)[i]),
        decreases variants.len() - k,
    {
        match variant_info(&variants[k], container) {
            Ok(v) => {
                proof { lemma_variant_views_push(infos@, v); }
                infos.push(v);
            },
            Err(e) => {
                proof { lemma_map_all_err(variants@, f, variant_views(infos@), k as int, err_view(e), 0); }
                return Err(e);
            },
        }
        k = k + 1;
    }
    proof {
        lemma_map_all_ok(variants@, f, variant_views(infos@), 0);
        assert(variant_views(infos@).subrange(0, variants@.len() as int) =~= variant_views(infos@));
    }
    Ok(infos)
}

/// What the derive reads of one variant of a protobuf enumeration.
pub struct EnumVariant {
    pub ident: String,
    /// `rename` (or `rename(serialize = ...)`): the name written in place of
    /// the protobuf name.
    pub serialize_name: Option<String>,
    /// `rename` (or `rename(deserialize = ...)`): the name read in place of
    /// the protobuf name.
    pub deserialize_name: Option<String>,
    /// More names the variant is read by (`alias`), in order.
    pub aliases: Vec<String>,
    /// Writing the variant is an error (`skip` or `skip_serializing`).
    pub skip_serializing: bool,
    /// Reading the variant, by name or number, is an error (`skip` or `skip_deserializing`).
    pub skip_deserializing: bool,
}

/// [`EnumVariant`] as plain values.
pub struct EnumVariantView {
    pub ident: Seq<char>,
    pub serialize_name: Option<Seq<char>>,
    pub deserialize_name: Option<Seq<char>>,
    pub aliases: Seq<Seq<char>>,
    pub skip_serializing: bool,
    pub skip_deserializing: bool,
}

impl View for EnumVariant {
    type V = EnumVariantView;

    open spec fn view(&self) -> EnumVariantView {
        EnumVariantView {
            ident: self.ident@,
            serialize_name: opt_view(self.serialize_name),
            deserialize_name: opt_view(self.deserialize_name),
            aliases: strings_view(self.aliases@),
            skip_serializing: self.skip_serializing,
            skip_deserializing: self.skip_deserializing,
        }
    }
}

/// The views of a list of enumeration variants.
pub open spec fn enum_variant_views(vs: Seq<EnumVariant>) -> Seq<EnumVariantView> {
    vs.map_values(|v: EnumVariant| v@)
}

/// One variant of a protobuf enumeration: its `prost_canonical_serde(...)`
/// names and skip flags.
pub open spec fn enum_variant_of(v: VariantInput) -> Result<EnumVariantView, (DeriveErrorKind, Seq<char>)> {
    match canonical_attrs_of(AttrPlace::Variant, v.attrs@) {
        Err(e) => Err(e),
        Ok(a) => Ok(EnumVariantView {
            ident: v.ident@,
            serialize_name: a.rename_serialize,
            deserialize_name: a.rename_deserialize,
            aliases: a.aliases,
            skip_serializing: a.skip_serializing,
            skip_deserializing: a.skip_deserializing,
        }),
    }
}

fn enum_variant(variant: &VariantInput) -> (r: Result<EnumVariant, DeriveError>)
    ensures
        match r {
            Ok(v) => enum_variant_of(*variant) == Ok::<EnumVariantView, (DeriveErrorKind, Seq<char>)>(v@),
            Err(e) => enum_variant_of(*variant) == Err::<EnumVariantView, _>(err_view(e)),
        },
{
    match parse_canonical_attrs(AttrPlace::Variant, &variant.attrs) {
        Ok(a) => Ok(EnumVariant {
            ident: variant.ident.clone(),
            serialize_name: a.rename_serialize,
            deserialize_name: a.rename_deserialize,
            aliases: a.aliases,
            skip_serializing: a.skip_serializing,
            skip_deserializing: a.skip_deserializing,
        }),
        Err(e) => Err(e),
    }
}

/// Reads every variant of a protobuf enumeration, in order.
pub fn enum_variants(variants: &Vec<VariantInput>) -> (r: Result<Vec<EnumVariant>, DeriveError>)
    ensures
        match r {
            Ok(vs) => map_all(variants@, |v: VariantInput| enum_variant_of(v), 0)
                == Ok::<Seq<EnumVariantView>, (DeriveErrorKind, Seq<char>)>(enum_variant_views(vs@)),
            Err(e) => map_all(variants@, |v: VariantInput| enum_variant_of(v), 0)
                == Err::<Seq<EnumVariantView>, _>(err_view(e)),
        },
{
    let ghost f = |v: VariantInput| enum_variant_of(v);
    let mut out: Vec<EnumVariant> = Vec::new();
    let mut k: usize = 0;
    while k < variants.len()
        invariant
            k <= variants.len(),
            f == (|v: VariantInput| enum_variant_of(v)),
            enum_variant_views(out@).len() == k,
            forall|i: int| 0 <= i < k ==> f(variants@[i]) == Ok::<EnumVariantView, (DeriveErrorKind, Seq<char>)>(#[trigger] enum_variant_views(out@)[i]),
        decreases variants.len() - k,
    {
        match enum_variant(&variants[k]) {
            Ok(v) => {
                proof { assert(enum_variant_views(out@.push(v)) =~= enum_variant_views(out@).push(v@)); }
                out.push(v);
            },
            Err(e) => {
                proof { lemma_map_all_err(variants@, f, enum_variant_views(out@), k as int, err_view(e), 0); }
                return Err(e);
            },
        }
        k = k + 1;
    }
    proof {
        lemma_map_all_ok(variants@, f, enum_variant_views(out@), 0);
        assert(enum_variant_views(out@).subrange(0, variants@.len() as int) =~= enum_variant_views(out@));
    }
    Ok(out)
}

/// How an enum is serialized.
#[derive(Clone, Copy, Debug, PartialEq, Eq, Structural)]
pub enum EnumSerializeMode {
    /// A oneof, as a one-entry object (its variants are read).
    Oneof,
    /// A oneof whose `serde(into = ...)` type serializes it (its variants
    /// are read all the same, for the oneof impl).
    OneofConversion,
    /// A protobuf enumeration through its `serde(into = ...)` type.
    Conversion,
    /// A protobuf enumeration, by name.
    Enumeration,
}

/// The serializer derive's plan for an enum: its settings, its variants
/// (for a oneof) and the mode.
pub struct SerializeEnum<'a> {
    pub container: ContainerAttrs,
    pub variants: Vec<VariantInfo<'a>>,
    pub mode: EnumSerializeMode,
    /// The variants of a protobuf enumeration (empty for a oneof or a conversion).
    pub enum_variants: Vec<EnumVariant>,
}

/// An enum serialization plan as plain values.
pub open spec fn serialize_enum_view(p: SerializeEnum) -> (ContainerView, Seq<VariantView>, EnumSerializeMode, Seq<EnumVariantView>) {
    (p.container@, variant_views(p.variants@), p.mode, enum_variant_views(p.enum_variants@))
}

/// `expand_serialize_enum`: a oneof enum reads its variants; a protobuf
/// enumeration goes through `into` when set, else may not have `default` or
/// `tag`, and its variants' names and skip flags are read.
pub open spec fn serialize_enum_of(ident: Seq<char>, attrs: Seq<Attribute>, variants: Seq<VariantInput>) -> Result<(ContainerView, Seq<VariantView>, EnumSerializeMode, Seq<EnumVariantView>), (DeriveErrorKind, Seq<char>)> {
    match container_attrs_of(ident, attrs) {
        Err(e) => Err(e),
        Ok(c) => if oneof_enum(variants) {
            match map_all(variants, |v: VariantInput| variant_info_of(v, c.serialize_rename_all, c.deserialize_rename_all), 0) {
                Err(e) => Err(e),
                Ok(vs) => Ok((c, vs, if c.serialize_via is Into { EnumSerializeMode::OneofConversion } else { EnumSerializeMode::Oneof }, Seq::empty())),
            }
        } else if c.serialize_via is Into {
            Ok((c, Seq::empty(), EnumSerializeMode::Conversion, Seq::empty()))
        } else if !(c.default is Unset) {
            Err(plain(DeriveErrorKind::DefaultOnEnum))
        } else if c.tag is Some {
            Err(plain(DeriveErrorKind::TagOnEnum))
        } else {
            match map_all(variants, |v: VariantInput| enum_variant_of(v), 0) {
                Err(e) => Err(e),
                Ok(evs) => Ok((c, Seq::empty(), EnumSerializeMode::Enumeration, evs)),
            }
        },
    }
}

/// Plans the serializer of an enum.
pub fn expand_serialize_enum<'a>(ident: &str, attrs: &Vec<Attribute>, variants: &'a Vec<VariantInput>) -> (r: Result<SerializeEnum<'a>, DeriveError>)
    ensures
        match r {
            Ok(p) => serialize_enum_of(ident@, attrs@, variants@) == Ok::<_, (DeriveErrorKind, Seq<char>)>(serialize_enum_view(p)),
            Err(e) => serialize_enum_of(ident@, attrs@, variants@) == Err::<(ContainerView, Seq<VariantView>, EnumSerializeMode, Seq<EnumVariantView>), _>(err_view(e)),
        },
{
    let container = match parse_container_attrs(ident, attrs) {
        Ok(c) => c,
        Err(e) => { return Err(e); },
    };
    if is_oneof_enum(variants) {
        let infos = match expand_oneof_impl(variants, &container) {
            Ok(v) => v,
            Err(e) => { return Err(e); },
        };
        let mode = if matches!(container.serialize_via, SerializeVia::Into(_)) {
            EnumSerializeMode::OneofConversion
        } else {
            EnumSerializeMode::Oneof
        };
        let r = SerializeEnum { container, variants: infos, mode, enum_variants: Vec::new() };
        assert(enum_variant_views(r.enum_variants@) =~= Seq::<EnumVariantView>::empty());
        return Ok(r);
    }
    if matches!(container.serialize_via, SerializeVia::Into(_)) {
        let r = SerializeEnum { container, variants: Vec::new(), mode: EnumSerializeMode::Conversion, enum_variants: Vec::new() };
        assert(variant_views(r.variants@) =~= Seq::<VariantView>::empty());
        assert(enum_variant_views(r.enum_variants@) =~= Seq::<EnumVariantView>::empty());
        return Ok(r);
    }
    if !matches!(container.default, ContainerDefault::Unset) {
        return Err(DeriveError::new(DeriveErrorKind::DefaultOnEnum));
    }
    if container.tag.is_some() {
        return Err(DeriveError::new(DeriveErrorKind::TagOnEnum));
    }
    let evs = match enum_variants(variants) {
        Ok(v) => v,
        Err(e) => { return Err(e); },
    };
    let r = SerializeEnum { container, variants: Vec::new(), mode: EnumSerializeMode::Enumeration, enum_variants: evs };
    assert(variant_views(r.variants@) =~= Seq::<VariantView>::empty());
    Ok(r)
}

/// How an enum is deserialized.
#[derive(Clone, Copy, Debug, PartialEq, Eq, Structural)]
pub enum EnumDeserializeMode {
    /// Through the `serde(from = ...)` or `serde(try_from = ...)` type.
    Conversion,
    /// A oneof, from an object with exactly one known entry; `on_unknown`
    /// says what happens to a key that no variant takes.
    Oneof { on_unknown: UnknownKey },
    /// A protobuf enumeration, by name or number.
    Enumeration,
}

/// `expand_deserialize_enum`: a conversion when `from` or `try_from` is set;
/// else no `default` or `tag`; then a oneof or an enumeration.
pub open spec fn deserialize_enum_of(ident: Seq<char>, attrs: Seq<Attribute>, variants: Seq<VariantInput>) -> Result<(ContainerView, EnumDeserializeMode), (DeriveErrorKind, Seq<char>)> {
    match container_attrs_of(ident, attrs) {
        Err(e) => Err(e),
        Ok(c) => if !(c.deserialize_via is Direct) {
            Ok((c, EnumDeserializeMode::Conversion))
        } else if !(c.default is Unset) {
            Err(plain(DeriveErrorKind::DefaultOnEnum))
        } else if c.tag is Some {
            Err(plain(DeriveErrorKind::TagOnEnum))
        } else if oneof_enum(variants) {
            Ok((c, EnumDeserializeMode::Oneof { on_unknown: unknown_key_of(c.deny_unknown_fields) }))
        } else {
            Ok((c, EnumDeserializeMode::Enumeration))
        },
    }
}

/// Plans the deserializer of an enum.
pub fn expand_deserialize_enum(ident: &str, attrs: &Vec<Attribute>, variants: &Vec<VariantInput>) -> (r: Result<(ContainerAttrs, EnumDeserializeMode), DeriveError>)
    ensures
        match r {
            Ok((c, m)) => deserialize_enum_of(ident@, attrs@, variants@) == Ok::<_, (DeriveErrorKind, Seq<char>)>((c@, m)),
            Err(e) => deserialize_enum_of(ident@, attrs@, variants@) == Err::<(ContainerView, EnumDeserializeMode), _>(err_view(e)),
        },
{
    let container = match parse_container_attrs(ident, attrs) {
        Ok(c) => c,
        Err(e) => { return Err(e); },
    };
    if !matches!(container.deserialize_via, DeserializeVia::Direct) {
        return Ok((container, EnumDeserializeMode::Conversion));
    }
    if !matches!(container.default, ContainerDefault::Unset) {
        return Err(DeriveError::new(DeriveErrorKind::DefaultOnEnum));
    }
    if container.tag.is_some() {
        return Err(DeriveError::new(DeriveErrorKind::TagOnEnum));
    }
    if is_oneof_enum(variants) {
        let on_unknown = unknown_key(container.deny_unknown_fields);
        Ok((container, EnumDeserializeMode::Oneof { on_unknown }))
    } else {
        Ok((container, EnumDeserializeMode::Enumeration))
    }
}

/// The serializer derive's plan for any input.
pub enum SerializePlan<'a> {
    Struct(SerializeStruct<'a>),
    Enum(SerializeEnum<'a>),
}

/// The deserializer derive's plan for any input.
pub enum DeserializePlan<'a> {
    Struct(DeserializeStruct<'a>),
    Enum(ContainerAttrs, EnumDeserializeMode),
}

/// `expand_serialize`: structs and enums; unions are refused.
pub fn expand_serialize<'a>(input: &'a DeriveInput) -> (r: Result<SerializePlan<'a>, DeriveError>)
    ensures
        match input.data {
            DataInput::Struct(fields) => match r {
                Ok(SerializePlan::Struct(p)) => serialize_struct_of(input.ident@, input.attrs@, fields) == Ok::<_, (DeriveErrorKind, Seq<char>)>(serialize_struct_view(p))
                    && p.writes@ == writes_for(p.container@, p.mode, p.entries@)
                && p.counts@ == counts_for(p.mode, p.entries@),
                Ok(SerializePlan::Enum(_)) => false,
                Err(e) => serialize_struct_of(input.ident@, input.attrs@, fields) == Err::<(ContainerView, Seq<FieldView>, SerializeMode, Seq<SerializeEntry>), _>(err_view(e)),
            },
            DataInput::Enum(variants) => match r {
                Ok(SerializePlan::Enum(p)) => serialize_enum_of(input.ident@, input.attrs@, variants@) == Ok::<_, (DeriveErrorKind, Seq<char>)>(serialize_enum_view(p)),
                Ok(SerializePlan::Struct(_)) => false,
                Err(e) => serialize_enum_of(input.ident@, input.attrs@, variants@) == Err::<(ContainerView, Seq<VariantView>, EnumSerializeMode, Seq<EnumVariantView>), _>(err_view(e)),
            },
            DataInput::Union => r matches Err(e) && err_view(e) == plain(DeriveErrorKind::SerializeUnion),
        },
{
    match &input.data {
        DataInput::Struct(fields) => match expand_serialize_struct(input.ident.as_str(), &input.attrs, fields) {
            Ok(p) => Ok(SerializePlan::Struct(p)),
            Err(e) => Err(e),
        },
        DataInput::Enum(variants) => match expand_serialize_enum(input.ident.as_str(), &input.attrs, variants) {
            Ok(p) => Ok(SerializePlan::Enum(p)),
            Err(e) => Err(e),
        },
        DataInput::Union => Err(DeriveError::new(DeriveErrorKind::SerializeUnion)),
    }
}

/// `expand_deserialize`: structs and enums; unions are refused.
pub fn expand_deserialize<'a>(input: &'a DeriveInput) -> (r: Result<DeserializePlan<'a>, DeriveError>)
    ensures
        match input.data {
            DataInput::Struct(fields) => match r {
                Ok(DeserializePlan::Struct(p)) => deserialize_struct_of(input.ident@, input.attrs@, fields) == Ok::<_, (DeriveErrorKind, Seq<char>)>(deserialize_struct_view(p))
                    && p.routes@ == routes_for(p.container@, p.mode, p.entries@)
                && p.on_unknown == unknown_key_of(p.container.deny_unknown_fields),
                Ok(DeserializePlan::Enum(_, _)) => false,
                Err(e) => deserialize_struct_of(input.ident@, input.attrs@, fields) == Err::<(ContainerView, Seq<FieldView>, DeserializeMode, Seq<DeserializeEntry>), _>(err_view(e)),
            },
            DataInput::Enum(variants) => match r {
                Ok(DeserializePlan::Enum(c, m)) => deserialize_enum_of(input.ident@, input.attrs@, variants@) == Ok::<_, (DeriveErrorKind, Seq<char>)>((c@, m)),
                Ok(DeserializePlan::Struct(_)) => false,
                Err(e) => deserialize_enum_of(input.ident@, input.attrs@, variants@) == Err::<(ContainerView, EnumDeserializeMode), _>(err_view(e)),
            },
            DataInput::Union => r matches Err(e) && err_view(e) == plain(DeriveErrorKind::DeserializeUnion),
        },
{
    match &input.data {
        DataInput::Struct(fields) => match expand_deserialize_struct(input.ident.as_str(), &input.attrs, fields) {
            Ok(p) => Ok(DeserializePlan::Struct(p)),
            Err(e) => Err(e),
        },
        DataInput::Enum(variants) => match expand_deserialize_enum(input.ident.as_str(), &input.attrs, variants) {
            Ok((c, m)) => Ok(DeserializePlan::Enum(c, m)),
            Err(e) => Err(e),
        },
        DataInput::Union => Err(DeriveError::new(DeriveErrorKind::DeserializeUnion)),
    }
}

} // verus!
