//! The synthesizer and the emitter: walk the variant list in declaration
//! order, synthesize one conversion per eligible variant, and emit the
//! original definition followed by the synthesized conversions.

use vstd::prelude::*;

use crate::config::{resolve_wrapper, spec_resolve_wrapper};
use crate::matcher::{conv_of, variant_conversion, variant_eligible, MatchOutcome};
use crate::model::{
    ConvModel, ConversionSpec, DefData, Fragment, TypeDefinition, VariantDef, WrapperModel,
    WrapperPath,
};

verus! {

/// The mathematical form of a list of synthesized conversions.
pub open spec fn views_of(s: Seq<ConversionSpec>) -> Seq<ConvModel> {
    s.map_values(|c: ConversionSpec| c@)
}

/// The conversions a variant list gives rise to, in declaration order: one
/// per eligible variant, nothing for the rest.
pub open spec fn conversions(enum_name: Seq<char>, vs: Seq<VariantDef>, w: WrapperModel) -> Seq<
    ConvModel,
>
    decreases vs.len(),
{
    if vs.len() == 0 {
        Seq::empty()
    } else {
        conversions(enum_name, vs.drop_last(), w) + (if variant_eligible(vs.last(), w) {
            seq![conv_of(enum_name, vs.last(), w)]
        } else {
            Seq::empty()
        })
    }
}

/// The conversions the whole definition gives rise to: those of its variant
/// list when it is a tagged union, none otherwise.
pub open spec fn def_conversions(d: TypeDefinition, w: WrapperModel) -> Seq<ConvModel> {
    match d.data {
        DefData::EnumData(vs) => conversions(d.name@, vs@, w),
        DefData::OtherData => Seq::empty(),
    }
}

/// Walks the definition's variants in declaration order and synthesizes one
/// conversion per eligible variant. A definition that is not a tagged union
/// yields no conversions.
pub fn conversions_for(d: &TypeDefinition, w: &WrapperPath) -> (out: Vec<ConversionSpec>)
    ensures
        views_of(out@) == def_conversions(*d, w@),
{
    let mut out: Vec<ConversionSpec> = Vec::new();
    match &d.data {
        DefData::EnumData(vs) => {
            let mut i: usize = 0;
            while i < vs.len()
                invariant
                    i <= vs@.len(),
                    views_of(out@) == conversions(d.name@, vs@.take(i as int), w@),
                decreases vs@.len() - i,
            {
                let ghost prev = out@;
                match variant_conversion(&d.name, &vs[i], w) {
                    MatchOutcome::Accepted(c) => {
                        out.push(c);
                    },
                    MatchOutcome::Skipped => {},
                }
                proof {
                    assert(vs@.take(i as int + 1).drop_last() =~= vs@.take(i as int));
                    assert(vs@.take(i as int + 1).last() == vs@[i as int]);
                    if variant_eligible(vs@[i as int], w@) {
                        assert(views_of(out@) =~= views_of(prev) + seq![
                            conv_of(d.name@, vs@[i as int], w@),
                        ]);
                    } else {
                        assert(views_of(out@) =~= views_of(prev) + Seq::<ConvModel>::empty());
                    }
                }
                i += 1;
            }
            proof {
                assert(vs@.take(vs@.len() as int) =~= vs@);
            }
        },
        DefData::OtherData => {},
    }
    out
}

/// The emitter: concatenates the original definition, verbatim and
/// unmodified, with the synthesized conversions, in that order. No
/// reordering, no deduplication, no further validation.
pub fn emit(original: TypeDefinition, impls: Vec<ConversionSpec>) -> (out: Fragment)
    ensures
        out.original == original,
        out.impls == impls,
{
    Fragment { original, impls }
}

/// The whole engine, one invocation of which is independent and total:
/// resolve the optional wrapper argument (absent selects the built-in owning
/// wrapper), match every variant of the annotated definition, synthesize one
/// conversion per eligible variant, and emit the original definition followed
/// by the synthesized conversions.
pub fn this_error_from_box(wrapper: Option<WrapperPath>, item: TypeDefinition) -> (out: Fragment)
    ensures
        out.original == item,
        views_of(out.impls@) == def_conversions(item, spec_resolve_wrapper(wrapper)),
{
    let w = resolve_wrapper(wrapper);
    let convs = conversions_for(&item, &w);
    emit(item, convs)
}

} // verus!
