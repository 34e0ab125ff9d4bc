use vstd::prelude::*;

verus! {

/// Why a module could not be built or could not process its input.
#[derive(Debug, Clone, Copy, PartialEq, Eq, Structural)]
pub enum TransformerError {
    /// The requested combination of model dimension and head count cannot
    /// be realised; reported when a configuration or a module is built.
    ConfigurationError,
    /// The input tensors do not fit the module or each other; reported by
    /// `forward` before any tensor arithmetic takes place.
    ShapeMismatch,
}

} // verus!
