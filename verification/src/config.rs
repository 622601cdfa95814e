//! Resolution of the engine's single configuration argument: an optional
//! wrapper type reference, defaulting to the built-in owning wrapper `Box`.

use vstd::prelude::*;

use crate::model::{WrapperModel, WrapperPath};

verus! {

/// The name of the built-in owning wrapper selected when no argument is given.
pub open spec fn default_wrapper_name() -> Seq<char> {
    seq!['B', 'o', 'x']
}

/// The wrapper reference selected when no argument is given: the single
/// segment `Box`, not fully qualified.
pub open spec fn default_wrapper_model() -> WrapperModel {
    WrapperModel { global: false, segments: seq![default_wrapper_name()] }
}

/// What resolution returns: the argument itself when present, else the default.
pub open spec fn spec_resolve_wrapper(arg: Option<WrapperPath>) -> WrapperModel {
    match arg {
        Option::Some(p) => p@,
        Option::None => default_wrapper_model(),
    }
}

/// A wrapper reference is well formed when it has at least one segment.
pub open spec fn wrapper_wf(w: WrapperModel) -> bool {
    w.segments.len() > 0
}

/// The configuration parser's resolution step. The caller parses the argument
/// tokens; an absent argument selects the built-in owning wrapper by name, a
/// present one is taken as given, with no further validation.
pub fn resolve_wrapper(arg: Option<WrapperPath>) -> (w: WrapperPath)
    ensures
        w@ == spec_resolve_wrapper(arg),
{
    match arg {
        Option::Some(p) => p,
        Option::None => {
            let mut name: Vec<char> = Vec::new();
            name.push('B');
            name.push('o');
            name.push('x');
            let mut segments: Vec<Vec<char>> = Vec::new();
            segments.push(name);
            let w = WrapperPath { global: false, segments };
            proof {
                assert(w@.segments[0] =~= default_wrapper_name());
                assert(w@.segments =~= default_wrapper_model().segments);
            }
            w
        },
    }
}

/// Resolution yields a well-formed wrapper whenever the argument, if present,
/// is well formed; in particular the default is well formed.
pub proof fn lemma_resolved_wrapper_wf(arg: Option<WrapperPath>)
    requires
        arg matches Option::Some(p) ==> wrapper_wf(p@),
    ensures
        wrapper_wf(spec_resolve_wrapper(arg)),
{
}

} // verus!
