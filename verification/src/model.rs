//! Structural model of the annotated definition, of the configured wrapper
//! reference, and of the synthesized conversions. Identifiers and the carried
//! inner-type text are held as character vectors.

use vstd::prelude::*;

verus! {

/// One generic argument attached to a path segment. The engine only needs to
/// know whether the argument is a type, as opposed to a lifetime or a const
/// expression; a type argument carries its source text, which the engine never
/// inspects, only hands through to the synthesized conversion.
#[derive(Debug, PartialEq, Eq)]
pub enum GenericArg {
    TypeArg(Vec<char>),
    OtherArg,
}

/// The generic arguments of one path segment, mirroring the three shapes the
/// host grammar allows: none, angle-bracketed, or parenthesized.
#[derive(Debug, PartialEq, Eq)]
pub enum SegmentArgs {
    NoArgs,
    AngleArgs(Vec<GenericArg>),
    ParenArgs,
}

/// One segment of a type path: a name plus its generic arguments.
#[derive(Debug, PartialEq, Eq)]
pub struct PathSegment {
    pub name: Vec<char>,
    pub args: SegmentArgs,
}

/// A field's declared type: either a plain type path, or anything else
/// (a reference, tuple, array, ...), which the matcher never accepts.
#[derive(Debug, PartialEq, Eq)]
pub enum FieldType {
    PathType { global: bool, segments: Vec<PathSegment> },
    OtherType,
}

/// One attribute attached to a field, reduced to what eligibility reads:
/// its name, when the attribute's path is a single identifier.
#[derive(Debug, PartialEq, Eq)]
pub enum FieldAttr {
    NamedAttr(Vec<char>),
    OtherAttr,
}

/// One field of a variant: its attributes and its declared type.
#[derive(Debug, PartialEq, Eq)]
pub struct FieldDef {
    pub attrs: Vec<FieldAttr>,
    pub ty: FieldType,
}

/// The field list of one variant: unnamed (positional), named, or none.
#[derive(Debug, PartialEq, Eq)]
pub enum VariantFields {
    Unnamed(Vec<FieldDef>),
    Named(Vec<FieldDef>),
    Unit,
}

/// One variant of a tagged union.
#[derive(Debug, PartialEq, Eq)]
pub struct VariantDef {
    pub name: Vec<char>,
    pub fields: VariantFields,
}

/// The body of the annotated definition. Only a tagged union carries
/// variants; any other kind of definition passes through untouched.
#[derive(Debug, PartialEq, Eq)]
pub enum DefData {
    EnumData(Vec<VariantDef>),
    OtherData,
}

/// The annotated definition: its name and its body.
#[derive(Debug, PartialEq, Eq)]
pub struct TypeDefinition {
    pub name: Vec<char>,
    pub data: DefData,
}

/// The wrapper type reference the matcher compares field types against:
/// ordered name segments plus the fully-qualified (leading absolute-path
/// marker) flag.
#[derive(Debug, PartialEq, Eq)]
pub struct WrapperPath {
    pub global: bool,
    pub segments: Vec<Vec<char>>,
}

/// Everything that determines one synthesized conversion: it maps a value of
/// the inner type to the union, by wrapping it and placing it in the variant.
#[derive(Debug, PartialEq, Eq)]
pub struct ConversionSpec {
    pub enum_name: Vec<char>,
    pub variant_name: Vec<char>,
    pub inner_ty: Vec<char>,
    pub wrapper: WrapperPath,
}

/// The emitted compilation-unit fragment: the original definition, unmodified,
/// followed by the synthesized conversions in variant-declaration order.
#[derive(Debug, PartialEq, Eq)]
pub struct Fragment {
    pub original: TypeDefinition,
    pub impls: Vec<ConversionSpec>,
}

/// Mathematical form of a wrapper reference.
pub struct WrapperModel {
    pub global: bool,
    pub segments: Seq<Seq<char>>,
}

impl View for WrapperPath {
    type V = WrapperModel;

    open spec fn view(&self) -> WrapperModel {
        WrapperModel {
            global: self.global,
            segments: Seq::new(self.segments@.len(), |i: int| self.segments@[i]@),
        }
    }
}

/// Mathematical form of a synthesized conversion.
pub struct ConvModel {
    pub enum_name: Seq<char>,
    pub variant_name: Seq<char>,
    pub inner_ty: Seq<char>,
    pub wrapper: WrapperModel,
}

impl View for ConversionSpec {
    type V = ConvModel;

    open spec fn view(&self) -> ConvModel {
        ConvModel {
            enum_name: self.enum_name@,
            variant_name: self.variant_name@,
            inner_ty: self.inner_ty@,
            wrapper: self.wrapper@,
        }
    }
}

/// Compares two character vectors by contents.
pub fn chars_eq(a: &Vec<char>, b: &Vec<char>) -> (r: bool)
    ensures
        r == (a@ == b@),
{
    if a.len() != b.len() {
        return false;
    }
    let mut i: usize = 0;
    while i < a.len()
        invariant
            a@.len() == b@.len(),
            i <= a@.len(),
            forall|j: int| 0 <= j < i ==> a@[j] == b@[j],
        decreases a@.len() - i,
    {
        if a[i] != b[i] {
            return false;
        }
        i += 1;
    }
    proof {
        assert(a@ =~= b@);
    }
    true
}

/// Copies a character vector.
pub fn copy_chars(v: &Vec<char>) -> (r: Vec<char>)
    ensures
        r@ == v@,
{
    let mut r: Vec<char> = Vec::new();
    let mut i: usize = 0;
    while i < v.len()
        invariant
            i <= v@.len(),
            r@ == v@.take(i as int),
        decreases v@.len() - i,
    {
        r.push(v[i]);
        i += 1;
        proof {
            assert(r@ =~= v@.take(i as int));
        }
    }
    proof {
        assert(v@.take(v@.len() as int) =~= v@);
    }
    r
}

/// Copies a wrapper reference.
pub fn copy_wrapper(w: &WrapperPath) -> (r: WrapperPath)
    ensures
        r@ == w@,
{
    let mut segments: Vec<Vec<char>> = Vec::new();
    let mut i: usize = 0;
    while i < w.segments.len()
        invariant
            i <= w.segments@.len(),
            segments@.len() == i,
            forall|j: int| 0 <= j < i ==> segments@[j]@ == w.segments@[j]@,
        decreases w.segments@.len() - i,
    {
        let s = copy_chars(&w.segments[i]);
        segments.push(s);
        i += 1;
    }
    let r = WrapperPath { global: w.global, segments };
    proof {
        assert(r@.segments =~= w@.segments);
    }
    r
}

} // verus!
