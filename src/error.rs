use vstd::prelude::*;

verus! {

/// Failures of one pipeline run. Finding no face is not among them: it is
/// an ordinary outcome.
#[derive(Debug, Clone, Copy, PartialEq, Eq, Structural)]
pub enum FaceError {
    /// The image file is missing or could not be decoded.
    ImageDecode,
    /// A model file is missing or corrupt.
    ModelLoad,
    /// The face's pixel rectangle does not lie inside the frame.
    RegionOutOfBounds,
    /// A network's output does not have the layout it is read with.
    InferenceShapeMismatch,
    /// The similarity index could not be reached or refused a request.
    IndexUnavailable,
}

} // verus!
