//! Laws of the matching-and-synthesis engine: what the output holds for
//! definitions with no eligible variant, and that a variant failing any
//! eligibility check contributes nothing to the output.

use vstd::prelude::*;

use crate::matcher::{conv_of, has_marker, variant_eligible};
use crate::model::{
    ConvModel, DefData, FieldType, TypeDefinition, VariantDef, VariantFields, WrapperModel,
};
use crate::synth::{conversions, def_conversions};

verus! {

/// The output is compositional: the conversions of a concatenation of
/// variant lists are the concatenation of their conversions.
pub proof fn lemma_conversions_concat(
    enum_name: Seq<char>,
    a: Seq<VariantDef>,
    b: Seq<VariantDef>,
    w: WrapperModel,
)
    ensures
        conversions(enum_name, a + b, w) == conversions(enum_name, a, w) + conversions(
            enum_name,
            b,
            w,
        ),
    decreases b.len(),
{
    if b.len() == 0 {
        assert(a + b =~= a);
        assert(conversions(enum_name, a, w) + conversions(enum_name, b, w) =~= conversions(
            enum_name,
            a,
            w,
        ));
    } else {
        let tail = if variant_eligible(b.last(), w) {
            seq![conv_of(enum_name, b.last(), w)]
        } else {
            Seq::<ConvModel>::empty()
        };
        lemma_conversions_concat(enum_name, a, b.drop_last(), w);
        assert((a + b).drop_last() =~= a + b.drop_last());
        assert((a + b).last() == b.last());
        assert(conversions(enum_name, a, w) + (conversions(enum_name, b.drop_last(), w) + tail)
            =~= (conversions(enum_name, a, w) + conversions(enum_name, b.drop_last(), w)) + tail);
    }
}

/// An eligible variant receives exactly one conversion, standing at the
/// variant's place in declaration order: the output splits around it.
pub proof fn lemma_eligible_variant_one_conversion(
    enum_name: Seq<char>,
    vs: Seq<VariantDef>,
    i: int,
    w: WrapperModel,
)
    requires
        0 <= i < vs.len(),
        variant_eligible(vs[i], w),
    ensures
        conversions(enum_name, vs, w) == conversions(enum_name, vs.take(i), w) + seq![
            conv_of(enum_name, vs[i], w),
        ] + conversions(enum_name, vs.skip(i + 1), w),
{
    assert(vs =~= (vs.take(i) + seq![vs[i]]) + vs.skip(i + 1));
    lemma_conversions_concat(enum_name, vs.take(i) + seq![vs[i]], vs.skip(i + 1), w);
    lemma_conversions_concat(enum_name, vs.take(i), seq![vs[i]], w);
    assert(seq![vs[i]].drop_last() =~= Seq::<VariantDef>::empty());
    assert(seq![vs[i]].last() == vs[i]);
    assert(conversions(enum_name, Seq::<VariantDef>::empty(), w) == Seq::<ConvModel>::empty());
    assert(Seq::<ConvModel>::empty() + seq![conv_of(enum_name, vs[i], w)] =~= seq![
        conv_of(enum_name, vs[i], w),
    ]);
    assert(conversions(enum_name, seq![vs[i]], w) =~= seq![conv_of(enum_name, vs[i], w)]);
}

/// A variant that fails any eligibility check is skipped silently: the
/// conversions of a variant list equal those of the list with that variant
/// removed.
pub proof fn lemma_skipped_variant_adds_nothing(
    enum_name: Seq<char>,
    vs: Seq<VariantDef>,
    i: int,
    w: WrapperModel,
)
    requires
        0 <= i < vs.len(),
        !variant_eligible(vs[i], w),
    ensures
        conversions(enum_name, vs, w) == conversions(enum_name, vs.remove(i), w),
    decreases vs.len(),
{
    if i == vs.len() - 1 {
        assert(vs.remove(i) =~= vs.drop_last());
        assert(conversions(enum_name, vs.drop_last(), w) + Seq::<ConvModel>::empty()
            =~= conversions(enum_name, vs.drop_last(), w));
    } else {
        let short = vs.remove(i);
        assert(short.drop_last() =~= vs.drop_last().remove(i));
        assert(short.last() == vs.last());
        lemma_skipped_variant_adds_nothing(enum_name, vs.drop_last(), i, w);
    }
}

/// A definition with no eligible variant — in particular, one that is not a
/// tagged union at all — yields no conversions, so the emitted fragment is
/// the original definition and nothing else.
pub proof fn lemma_untouched_definition(d: TypeDefinition, w: WrapperModel)
    requires
        match d.data {
            DefData::EnumData(vs) => forall|i: int|
                0 <= i < vs@.len() ==> !variant_eligible(vs@[i], w),
            DefData::OtherData => true,
        },
    ensures
        def_conversions(d, w) == Seq::<ConvModel>::empty(),
{
    match d.data {
        DefData::EnumData(vs) => {
            lemma_no_eligible_no_conversions(d.name@, vs@, w);
        },
        DefData::OtherData => {},
    }
}

proof fn lemma_no_eligible_no_conversions(
    enum_name: Seq<char>,
    vs: Seq<VariantDef>,
    w: WrapperModel,
)
    requires
        forall|i: int| 0 <= i < vs.len() ==> !variant_eligible(vs[i], w),
    ensures
        conversions(enum_name, vs, w) == Seq::<ConvModel>::empty(),
    decreases vs.len(),
{
    if vs.len() > 0 {
        lemma_no_eligible_no_conversions(enum_name, vs.drop_last(), w);
        assert(!variant_eligible(vs.last(), w));
        assert(Seq::<ConvModel>::empty() + Seq::<ConvModel>::empty() =~= Seq::<
            ConvModel,
        >::empty());
    }
}

/// A variant with a named-field shape, or with more than one field, receives
/// no conversion, regardless of attribute presence: it is ineligible and
/// contributes nothing to the output.
pub proof fn lemma_shape_skip(enum_name: Seq<char>, vs: Seq<VariantDef>, i: int, w: WrapperModel)
    requires
        0 <= i < vs.len(),
        match vs[i].fields {
            VariantFields::Named(_) => true,
            VariantFields::Unnamed(fs) => fs@.len() > 1,
            VariantFields::Unit => false,
        },
    ensures
        !variant_eligible(vs[i], w),
        conversions(enum_name, vs, w) == conversions(enum_name, vs.remove(i), w),
{
    lemma_skipped_variant_adds_nothing(enum_name, vs, i, w);
}

/// A variant whose single unnamed field lacks the conversion-marker attribute
/// receives no conversion, even when its type matches the wrapper pattern:
/// nothing here constrains the field's type.
pub proof fn lemma_unmarked_field_skip(
    enum_name: Seq<char>,
    vs: Seq<VariantDef>,
    i: int,
    w: WrapperModel,
)
    requires
        0 <= i < vs.len(),
        match vs[i].fields {
            VariantFields::Unnamed(fs) => fs@.len() == 1 && !has_marker(fs@[0].attrs@),
            _ => false,
        },
    ensures
        !variant_eligible(vs[i], w),
        conversions(enum_name, vs, w) == conversions(enum_name, vs.remove(i), w),
{
    lemma_skipped_variant_adds_nothing(enum_name, vs, i, w);
}

/// A variant whose field type path disagrees with the wrapper reference in
/// segment count or in the fully-qualified flag receives no conversion,
/// regardless of segment names, markers, or generic arguments.
pub proof fn lemma_path_mismatch_skip(
    enum_name: Seq<char>,
    vs: Seq<VariantDef>,
    i: int,
    w: WrapperModel,
)
    requires
        0 <= i < vs.len(),
        match vs[i].fields {
            VariantFields::Unnamed(fs) => fs@.len() == 1 && match fs@[0].ty {
                FieldType::PathType { global, segments } => global != w.global || segments@.len()
                    != w.segments.len(),
                FieldType::OtherType => false,
            },
            _ => false,
        },
    ensures
        !variant_eligible(vs[i], w),
        conversions(enum_name, vs, w) == conversions(enum_name, vs.remove(i), w),
{
    lemma_skipped_variant_adds_nothing(enum_name, vs, i, w);
}

} // verus!
