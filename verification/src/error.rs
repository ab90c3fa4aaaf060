//! The failures that the library reports.

use vstd::prelude::*;

verus! {

/// A byte stream that is too short to hold the frame it announces.
#[derive(Debug, Clone, Copy, PartialEq, Eq, Structural)]
pub enum FormatError {
    /// The stream ends before the two dimension fields are complete.
    ShortHeader,
    /// The stream ends before the last announced sample.
    ShortSamples,
}

/// Grid shapes that do not fit the operation asked for.
#[derive(Debug, Clone, Copy, PartialEq, Eq, Structural)]
pub enum DimensionError {
    /// More rows than a 16-bit dimension field can hold.
    HeightTooBig,
    /// More columns than a 16-bit dimension field can hold.
    WidthTooBig,
    /// The number of samples is not the product of the two dimensions.
    SampleCount,
    /// Frames that are combined sample by sample differ in shape.
    FrameMismatch,
    /// A frame with an odd number of rows has no two equal halves.
    OddHeight,
}

/// Why the processing of a batch stops.
#[derive(Debug, PartialEq, Eq)]
pub enum ProcessingError {
    /// No path of the batch contains the token; the token is given.
    MissingPattern(String),
    /// The path has no final component to name its copy by; the path is given.
    NoFileName(String),
    /// A frame does not decode.
    Format(FormatError),
    /// The frames do not fit each other.
    Dimension(DimensionError),
}

/// What a `ProcessingError` holds.
pub ghost enum Fault {
    MissingPattern(Seq<char>),
    NoFileName(Seq<char>),
    Format(FormatError),
    Dimension(DimensionError),
}

impl View for ProcessingError {
    type V = Fault;

    open spec fn view(&self) -> Fault {
        match self {
            ProcessingError::MissingPattern(token) => Fault::MissingPattern(token@),
            ProcessingError::NoFileName(path) => Fault::NoFileName(path@),
            ProcessingError::Format(e) => Fault::Format(*e),
            ProcessingError::Dimension(e) => Fault::Dimension(*e),
        }
    }
}

impl Clone for ProcessingError {
    fn clone(&self) -> (copy: ProcessingError)
        ensures
            copy@ == self@,
    {
        match self {
            ProcessingError::MissingPattern(token) => ProcessingError::MissingPattern(
                token.clone(),
            ),
            ProcessingError::NoFileName(path) => ProcessingError::NoFileName(path.clone()),
            ProcessingError::Format(e) => ProcessingError::Format(*e),
            ProcessingError::Dimension(e) => ProcessingError::Dimension(*e),
        }
    }
}

impl DeepView for ProcessingError {
    type V = Fault;

    open spec fn deep_view(&self) -> Fault {
        self@
    }
}

/// An outcome as what its two sides hold.
pub open spec fn view_result<T: View, E: View>(r: Result<T, E>) -> Result<T::V, E::V> {
    match r {
        Ok(value) => Ok(value@),
        Err(error) => Err(error@),
    }
}

} // verus!
