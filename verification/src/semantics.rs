//! Value-level meaning of a synthesized conversion. The generated code wraps
//! the given inner value with the wrapper's construct-from conversion and
//! places it in the named variant; this module states that behaviour over a
//! model of the owning wrapper, so the guarantee — active variant as named,
//! payload the wrapped input, unwrapping gives the input back — is proved.

use vstd::prelude::*;

use crate::model::{copy_chars, ConversionSpec};

verus! {

/// A model of the owning wrapper: it owns exactly the value it was
/// constructed from.
pub struct Wrapped<T> {
    pub value: T,
}

/// A model of a union value: the name of its active variant and its payload.
pub struct UnionValue<T> {
    pub variant_name: Vec<char>,
    pub payload: Wrapped<T>,
}

/// What the wrapper's construct-from conversion returns.
pub open spec fn spec_wrap<T>(v: T) -> Wrapped<T> {
    Wrapped { value: v }
}

/// What unwrapping gives back.
pub open spec fn spec_unwrap<T>(w: Wrapped<T>) -> T {
    w.value
}

/// The wrapper's construct-from conversion: total and unconditional.
pub fn wrap_value<T>(v: T) -> (w: Wrapped<T>)
    ensures
        w == spec_wrap(v),
{
    Wrapped { value: v }
}

/// Takes the owned value back out of the wrapper.
pub fn unwrap_value<T>(w: Wrapped<T>) -> (v: T)
    ensures
        v == spec_unwrap(w),
{
    w.value
}

/// Runs one synthesized conversion on a value of the inner type: the result's
/// active variant is the conversion's variant, and its payload is the wrapped
/// input, so unwrapping the payload gives the input back unchanged.
pub fn apply_conversion<T>(c: &ConversionSpec, v: T) -> (u: UnionValue<T>)
    ensures
        u.variant_name@ == c.variant_name@,
        u.payload == spec_wrap(v),
        spec_unwrap(u.payload) == v,
{
    UnionValue { variant_name: copy_chars(&c.variant_name), payload: wrap_value(v) }
}

/// For every value, unwrapping the wrapped value yields the original.
pub proof fn lemma_wrap_round_trip<T>(v: T)
    ensures
        spec_unwrap(spec_wrap(v)) == v,
{
}

} // verus!
