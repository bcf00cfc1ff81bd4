//! What the generated code does with each variant of an enum: which name a
//! variant is written under (or that writing it is an error), and which
//! names and numbers read it back.
use vstd::prelude::*;
use crate::attrs::strings_view;
use crate::plan::{EnumVariant, EnumVariantView, VariantInfo, VariantView};

verus! {

/// How a protobuf enumeration variant is written.
pub enum EnumWrite {
    /// By its protobuf name (`as_str_name`).
    ProtoName,
    /// By the name that `rename` gives.
    Name(String),
    /// Writing it is an error (`skip_serializing`).
    Refuse,
}

/// [`EnumWrite`] as plain values.
pub enum EnumWriteView {
    ProtoName,
    Name(Seq<char>),
    Refuse,
}

impl View for EnumWrite {
    type V = EnumWriteView;

    open spec fn view(&self) -> EnumWriteView {
        match self {
            EnumWrite::ProtoName => EnumWriteView::ProtoName,
            EnumWrite::Name(n) => EnumWriteView::Name(n@),
            EnumWrite::Refuse => EnumWriteView::Refuse,
        }
    }
}

/// What the generated code does with one protobuf enumeration variant.
pub struct EnumVariantPlan {
    pub write: EnumWrite,
    /// The names besides the protobuf name that read the variant, in order.
    pub read_names: Vec<String>,
    /// Whether the protobuf name still reads the variant.
    pub reads_proto_name: bool,
    /// Whether the variant's number reads it.
    pub reads_number: bool,
}

/// [`EnumVariantPlan`] as plain values.
pub struct EnumVariantPlanView {
    pub write: EnumWriteView,
    pub read_names: Seq<Seq<char>>,
    pub reads_proto_name: bool,
    pub reads_number: bool,
}

impl View for EnumVariantPlan {
    type V = EnumVariantPlanView;

    open spec fn view(&self) -> EnumVariantPlanView {
        EnumVariantPlanView {
            write: self.write@,
            read_names: strings_view(self.read_names@),
            reads_proto_name: self.reads_proto_name,
            reads_number: self.reads_number,
        }
    }
}

/// A protobuf enumeration variant: `skip_serializing` makes writing it an
/// error, else `rename` names it, else its protobuf name does; a variant
/// skipped on reading is read by no name and no number; otherwise its
/// `rename` (which replaces the protobuf name) and its aliases read it, and
/// so does its number.
pub open spec fn enum_variant_plan_of(v: EnumVariantView) -> EnumVariantPlanView {
    EnumVariantPlanView {
        write: if v.skip_serializing {
            EnumWriteView::Refuse
        } else {
            match v.serialize_name {
                Some(n) => EnumWriteView::Name(n),
                None => EnumWriteView::ProtoName,
            }
        },
        read_names: if v.skip_deserializing {
            Seq::empty()
        } else {
            (match v.deserialize_name {
                Some(n) => seq![n],
                None => Seq::empty(),
            }) + v.aliases
        },
        reads_proto_name: !v.skip_deserializing && v.deserialize_name is None,
        reads_number: !v.skip_deserializing,
    }
}

/// Plans one protobuf enumeration variant.
pub fn plan_enum_variant(v: &EnumVariant) -> (r: EnumVariantPlan)
    ensures
        r@ == enum_variant_plan_of(v@),
{
    let write = if v.skip_serializing {
        EnumWrite::Refuse
    } else {
        match &v.serialize_name {
            Some(n) => EnumWrite::Name(n.clone()),
            None => EnumWrite::ProtoName,
        }
    };
    let mut read_names: Vec<String> = Vec::new();
    if !v.skip_deserializing {
        if let Some(n) = &v.deserialize_name {
            read_names.push(n.clone());
        }
        let ghost start = strings_view(read_names@);
        assert(start =~= (match v@.deserialize_name {
            Some(n) => seq![n],
            None => Seq::<Seq<char>>::empty(),
        }));
        let mut k: usize = 0;
        while k < v.aliases.len()
            invariant
                k <= v.aliases.len(),
                strings_view(read_names@) == start + strings_view(v.aliases@).subrange(0, k as int),
            decreases v.aliases.len() - k,
        {
            let ghost before = read_names@;
            let a = v.aliases[k].clone();
            assert(a@ == strings_view(v.aliases@)[k as int]);
            read_names.push(a);
            assert(strings_view(read_names@) =~= strings_view(before).push(a@));
            assert(strings_view(v.aliases@).subrange(0, k + 1) =~= strings_view(v.aliases@).subrange(0, k as int).push(a@));
            assert(strings_view(read_names@) =~= start + strings_view(v.aliases@).subrange(0, k + 1));
            k = k + 1;
        }
        assert(strings_view(v.aliases@).subrange(0, v.aliases.len() as int) =~= strings_view(v.aliases@));
    } else {
        assert(strings_view(read_names@) =~= Seq::<Seq<char>>::empty());
    }
    EnumVariantPlan {
        write,
        read_names,
        reads_proto_name: !v.skip_deserializing && v.deserialize_name.is_none(),
        reads_number: !v.skip_deserializing,
    }
}

/// The views of a list of enumeration variant plans.
pub open spec fn enum_plan_views(ps: Seq<EnumVariantPlan>) -> Seq<EnumVariantPlanView> {
    ps.map_values(|p: EnumVariantPlan| p@)
}

/// Plans every variant of a protobuf enumeration, in order.
pub fn plan_enum_variants(vs: &Vec<EnumVariant>) -> (r: Vec<EnumVariantPlan>)
    ensures
        r@.len() == vs@.len(),
        forall|i: int| 0 <= i < vs@.len() ==> #[trigger] r@[i]@ == enum_variant_plan_of(vs@[i]@),
{
    let mut out: Vec<EnumVariantPlan> = Vec::new();
    let mut k: usize = 0;
    while k < vs.len()
        invariant
            k <= vs.len(),
            out@.len() == k,
            forall|i: int| 0 <= i < k ==> #[trigger] out@[i]@ == enum_variant_plan_of(vs@[i]@),
        decreases vs.len() - k,
    {
        out.push(plan_enum_variant(&vs[k]));
        k = k + 1;
    }
    out
}

/// What the generated code does with one oneof variant.
pub struct OneofVariantPlan {
    /// Writing the variant is an error (`skip_serializing`); otherwise it
    /// is written as one entry under its JSON name.
    pub refuse_write: bool,
    /// The keys that read the variant, in order: its JSON name, its proto
    /// name when it differs, its aliases; none when it is skipped on reading.
    pub read_names: Vec<String>,
}

/// [`OneofVariantPlan`] as plain values.
pub struct OneofVariantPlanView {
    pub refuse_write: bool,
    pub read_names: Seq<Seq<char>>,
}

impl View for OneofVariantPlan {
    type V = OneofVariantPlanView;

    open spec fn view(&self) -> OneofVariantPlanView {
        OneofVariantPlanView { refuse_write: self.refuse_write, read_names: strings_view(self.read_names@) }
    }
}

/// The keys that read a oneof variant.
pub open spec fn oneof_read_names(v: VariantView) -> Seq<Seq<char>> {
    if v.skip_deserializing {
        Seq::empty()
    } else {
        seq![v.deserialize_name] + (if v.with_proto { seq![v.proto_name] } else { Seq::empty() }) + v.aliases
    }
}

/// A oneof variant's plan.
pub open spec fn oneof_variant_plan_of(v: VariantView) -> OneofVariantPlanView {
    OneofVariantPlanView { refuse_write: v.skip_serializing, read_names: oneof_read_names(v) }
}

/// Plans one oneof variant.
pub fn plan_oneof_variant(v: &VariantInfo) -> (r: OneofVariantPlan)
    ensures
        r@ == oneof_variant_plan_of(v@),
{
    let mut read_names: Vec<String> = Vec::new();
    if !v.skip_deserializing {
        read_names.push(v.deserialize_name.clone());
        if v.with_proto {
            read_names.push(v.proto_name.clone());
        }
        let ghost start = strings_view(read_names@);
        assert(start =~= seq![v@.deserialize_name] + (if v@.with_proto { seq![v@.proto_name] } else { Seq::<Seq<char>>::empty() }));
        let mut k: usize = 0;
        while k < v.aliases.len()
            invariant
                k <= v.aliases.len(),
                strings_view(read_names@) == start + strings_view(v.aliases@).subrange(0, k as int),
            decreases v.aliases.len() - k,
        {
            let ghost before = read_names@;
            let a = v.aliases[k].clone();
            assert(a@ == strings_view(v.aliases@)[k as int]);
            read_names.push(a);
            assert(strings_view(read_names@) =~= strings_view(before).push(a@));
            assert(strings_view(v.aliases@).subrange(0, k + 1) =~= strings_view(v.aliases@).subrange(0, k as int).push(a@));
            assert(strings_view(read_names@) =~= start + strings_view(v.aliases@).subrange(0, k + 1));
            k = k + 1;
        }
        assert(strings_view(v.aliases@).subrange(0, v.aliases.len() as int) =~= strings_view(v.aliases@));
    } else {
        assert(strings_view(read_names@) =~= Seq::<Seq<char>>::empty());
    }
    OneofVariantPlan { refuse_write: v.skip_serializing, read_names }
}

/// Plans every variant of a oneof, in order.
pub fn plan_oneof_variants(vs: &Vec<VariantInfo>) -> (r: Vec<OneofVariantPlan>)
    ensures
        r@.len() == vs@.len(),
        forall|i: int| 0 <= i < vs@.len() ==> #[trigger] r@[i]@ == oneof_variant_plan_of(vs@[i]@),
{
    let mut out: Vec<OneofVariantPlan> = Vec::new();
    let mut k: usize = 0;
    while k < vs.len()
        invariant
            k <= vs.len(),
            out@.len() == k,
            forall|i: int| 0 <= i < k ==> #[trigger] out@[i]@ == oneof_variant_plan_of(vs@[i]@),
        decreases vs.len() - k,
    {
        out.push(plan_oneof_variant(&vs[k]));
        k = k + 1;
    }
    out
}

} // verus!
