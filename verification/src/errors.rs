use vstd::prelude::*;

verus! {

/// Failure taxonomy of the library.
///
/// - `ShapeMismatch`: a raw buffer does not hold the expected number of
///   single-precision components; carries the expected and actual byte
///   lengths so a caller can correct its input.
/// - `DecompositionFailed`: the singular value decomposition did not
///   converge or could not produce the right-singular matrix.
/// - `EngineFailure`: the approximate-nearest-neighbor engine rejected an
///   operation; carries the engine's message.
/// - `BatchItemFailed`: one item of a batch insert failed; carries the
///   zero-based index of the failing item and the engine's message.
///   Items inserted before it stay inserted.
#[derive(Debug, Clone, PartialEq, Eq)]
pub enum VexusError {
    ShapeMismatch { expected: usize, actual: usize },
    DecompositionFailed,
    EngineFailure { message: String },
    BatchItemFailed { index: usize, message: String },
}

} // verus!
