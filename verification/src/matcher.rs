//! Per-variant eligibility: a variant qualifies exactly when it has a single
//! unnamed field, the field carries the conversion-marker attribute, its type
//! is a type path equal to the configured wrapper reference segment by segment
//! (with agreeing fully-qualified flags), and the path's final segment carries
//! exactly one angle-bracketed generic argument that is itself a type.

use vstd::prelude::*;

use crate::model::{
    chars_eq, copy_chars, copy_wrapper, ConvModel, ConversionSpec, FieldAttr, FieldDef, FieldType,
    GenericArg, PathSegment, SegmentArgs, VariantDef, VariantFields, WrapperModel, WrapperPath,
};

verus! {

/// The name of the conversion-marker attribute: `from`.
pub open spec fn marker_name() -> Seq<char> {
    seq!['f', 'r', 'o', 'm']
}

/// Whether one attribute is the conversion marker.
pub open spec fn is_marker(a: FieldAttr) -> bool {
    match a {
        FieldAttr::NamedAttr(n) => n@ == marker_name(),
        FieldAttr::OtherAttr => false,
    }
}

/// Whether some attribute in the list is the conversion marker.
pub open spec fn has_marker(attrs: Seq<FieldAttr>) -> bool {
    exists|i: int| 0 <= i < attrs.len() && is_marker(attrs[i])
}

/// Whether a field's type path equals the wrapper reference: agreeing
/// fully-qualified flags, equal segment counts, and equal segment names,
/// position by position. No partial or prefix matching.
pub open spec fn path_matches(global: bool, segs: Seq<PathSegment>, w: WrapperModel) -> bool {
    &&& global == w.global
    &&& segs.len() == w.segments.len()
    &&& forall|i: int| 0 <= i < segs.len() ==> segs[i].name@ == w.segments[i]
}

/// Whether a segment carries exactly one angle-bracketed generic argument,
/// and that argument is a type (not a lifetime or const argument).
pub open spec fn single_type_arg(args: SegmentArgs) -> bool {
    match args {
        SegmentArgs::AngleArgs(a) => a@.len() == 1 && (a@[0] matches GenericArg::TypeArg(_)),
        _ => false,
    }
}

/// Whether a field qualifies: marked, typed as a path equal to the wrapper
/// reference, with exactly one type argument on the final segment.
pub open spec fn field_eligible(f: FieldDef, w: WrapperModel) -> bool {
    &&& has_marker(f.attrs@)
    &&& match f.ty {
        FieldType::PathType { global, segments } => {
            &&& segments@.len() > 0
            &&& path_matches(global, segments@, w)
            &&& single_type_arg(segments@.last().args)
        },
        FieldType::OtherType => false,
    }
}

/// Whether a variant qualifies: exactly one unnamed field, and that field
/// qualifies.
pub open spec fn variant_eligible(v: VariantDef, w: WrapperModel) -> bool {
    match v.fields {
        VariantFields::Unnamed(fs) => fs@.len() == 1 && field_eligible(fs@[0], w),
        _ => false,
    }
}

/// The inner type carried by a variant's single field: the text of the sole
/// type argument on the final path segment. Meaningful only for an eligible
/// variant; empty on any shape an eligible variant cannot have.
pub open spec fn inner_of(v: VariantDef) -> Seq<char> {
    match v.fields {
        VariantFields::Unnamed(fs) => {
            if fs@.len() == 0 {
                Seq::empty()
            } else {
                match fs@[0].ty {
                    FieldType::PathType { global: _, segments } => {
                        if segments@.len() == 0 {
                            Seq::empty()
                        } else {
                            match segments@.last().args {
                                SegmentArgs::AngleArgs(a) => {
                                    if a@.len() == 0 {
                                        Seq::empty()
                                    } else {
                                        match a@[0] {
                                            GenericArg::TypeArg(t) => t@,
                                            GenericArg::OtherArg => Seq::empty(),
                                        }
                                    }
                                },
                                _ => Seq::empty(),
                            }
                        }
                    },
                    FieldType::OtherType => Seq::empty(),
                }
            }
        },
        _ => Seq::empty(),
    }
}

/// The conversion an eligible variant gives rise to.
pub open spec fn conv_of(enum_name: Seq<char>, v: VariantDef, w: WrapperModel) -> ConvModel {
    ConvModel {
        enum_name,
        variant_name: v.name@,
        inner_ty: inner_of(v),
        wrapper: w,
    }
}

/// The outcome of examining one variant: a synthesized conversion, or a
/// silent skip. Skipping is expected behaviour, never an error.
pub enum MatchOutcome {
    Accepted(ConversionSpec),
    Skipped,
}

/// Whether this attribute is the conversion marker.
fn is_marker_attr(a: &FieldAttr) -> (r: bool)
    ensures
        r == is_marker(*a),
{
    match a {
        FieldAttr::NamedAttr(n) => {
            if n.len() != 4 {
                return false;
            }
            let r = n[0] == 'f' && n[1] == 'r' && n[2] == 'o' && n[3] == 'm';
            proof {
                if r {
                    assert(n@ =~= marker_name());
                }
            }
            r
        },
        FieldAttr::OtherAttr => false,
    }
}

/// Whether some attribute in the list is the conversion marker.
fn attrs_have_marker(attrs: &Vec<FieldAttr>) -> (r: bool)
    ensures
        r == has_marker(attrs@),
{
    let mut i: usize = 0;
    while i < attrs.len()
        invariant
            i <= attrs@.len(),
            forall|j: int| 0 <= j < i ==> !is_marker(attrs@[j]),
        decreases attrs@.len() - i,
    {
        if is_marker_attr(&attrs[i]) {
            return true;
        }
        i += 1;
    }
    false
}

/// Whether a field's type path equals the wrapper reference.
fn segments_match(global: bool, segs: &Vec<PathSegment>, w: &WrapperPath) -> (r: bool)
    ensures
        r == path_matches(global, segs@, w@),
{
    if global != w.global {
        return false;
    }
    if segs.len() != w.segments.len() {
        return false;
    }
    let mut i: usize = 0;
    while i < segs.len()
        invariant
            segs@.len() == w.segments@.len(),
            i <= segs@.len(),
            forall|j: int| 0 <= j < i ==> segs@[j].name@ == w@.segments[j],
        decreases segs@.len() - i,
    {
        if !chars_eq(&segs[i].name, &w.segments[i]) {
            proof {
                assert(segs@[i as int].name@ != w@.segments[i as int]);
            }
            return false;
        }
        i += 1;
    }
    true
}

/// Examines one variant against the wrapper reference, in the order the
/// eligibility rules give: field-list shape, marker, path shape, path
/// equality, and the final segment's generic arguments. Every failure is a
/// silent skip; on success the conversion is fully determined by the union
/// name, the variant, and the wrapper.
pub fn variant_conversion(enum_name: &Vec<char>, v: &VariantDef, w: &WrapperPath) -> (r:
    MatchOutcome)
    ensures
        variant_eligible(*v, w@) ==> (r matches MatchOutcome::Accepted(c) && c@ == conv_of(
            enum_name@,
            *v,
            w@,
        )),
        !variant_eligible(*v, w@) ==> (r matches MatchOutcome::Skipped),
{
    let fs = match &v.fields {
        VariantFields::Unnamed(fs) => fs,
        _ => {
            return MatchOutcome::Skipped;
        },
    };
    if fs.len() != 1 {
        return MatchOutcome::Skipped;
    }
    let field = &fs[0];
    if !attrs_have_marker(&field.attrs) {
        return MatchOutcome::Skipped;
    }
    let (global, segments) = match &field.ty {
        FieldType::PathType { global, segments } => (*global, segments),
        FieldType::OtherType => {
            return MatchOutcome::Skipped;
        },
    };
    if segments.len() == 0 {
        return MatchOutcome::Skipped;
    }
    if !segments_match(global, segments, w) {
        return MatchOutcome::Skipped;
    }
    let last = &segments[segments.len() - 1];
    let args = match &last.args {
        SegmentArgs::AngleArgs(args) => args,
        _ => {
            return MatchOutcome::Skipped;
        },
    };
    if args.len() != 1 {
        return MatchOutcome::Skipped;
    }
    let inner = match &args[0] {
        GenericArg::TypeArg(t) => t,
        GenericArg::OtherArg => {
            return MatchOutcome::Skipped;
        },
    };
    let c = ConversionSpec {
        enum_name: copy_chars(enum_name),
        variant_name: copy_chars(&v.name),
        inner_ty: copy_chars(inner),
        wrapper: copy_wrapper(w),
    };
    MatchOutcome::Accepted(c)
}

} // verus!
