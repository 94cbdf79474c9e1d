//! The failure taxonomy of the engine.

use vstd::prelude::*;

verus! {

/// Why a mutating or drawing call failed.
///
/// Every failure surfaces synchronously to the caller; draw calls are
/// atomic with respect to paint-resolution failure — nothing is drawn.
#[derive(Clone, Copy, PartialEq, Eq, Structural, Debug)]
pub enum SkError {
    /// An out-of-range scalar or an argument of the wrong shape, rejected
    /// before any state changes.
    Validation,
    /// Malformed colour text, or an unknown fill-rule, blend-mode, cap or
    /// join keyword.
    Parse,
    /// The backend could not build a resource: a shader or a dash effect.
    BackendResource,
    /// A feature the engine deliberately stubs out: image-pattern sources.
    Unsupported,
}

} // verus!
