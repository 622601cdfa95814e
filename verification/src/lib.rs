//! Augments a tagged-union definition with synthesized value-conversion
//! constructors: for every variant whose single unnamed field is marked for
//! conversion and is typed as the configured owning wrapper applied to one
//! inner type, the engine describes a conversion from the inner type to the
//! union, wrapping the value and placing it in that variant.

pub mod config;
pub mod laws;
pub mod matcher;
pub mod model;
pub mod semantics;
pub mod synth;

pub use crate::synth::this_error_from_box;
