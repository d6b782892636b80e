//! Error taxonomy of the orbit-determination core.
//!
//! Validation errors are raised synchronously by batch ingestion, conversion
//! errors by the partial element conversions, and estimation errors are
//! captured per trajectory by the orchestrator without aborting its siblings.

use vstd::prelude::*;

verus! {

/// The input sequence of a batch that failed the length check.
#[derive(Clone, Copy, Debug, PartialEq, Eq, Structural)]
pub enum BatchField {
    Ra,
    Dec,
    Time,
}

/// Rejection of a whole ingestion call.
///
/// `expected` is the length of the trajectory-id sequence, `actual` the length
/// of the offending sequence. Nothing is ingested when this is returned.
#[derive(Clone, Copy, Debug, PartialEq, Eq, Structural)]
pub enum ValidationError {
    LengthMismatch { expected: usize, field: BatchField, actual: usize },
}

/// Rejection of a cometary conversion that would need a finite semi-major axis.
#[derive(Clone, Copy, Debug, PartialEq, Eq, Structural)]
pub enum ConversionError {
    NonEllipticalOrbit,
}

/// Failure of one trajectory's orbit estimation (solver non-convergence,
/// degenerate geometry). Carried as an opaque message; one trajectory's
/// failure never invalidates the others.
#[derive(Clone, Debug, PartialEq, Eq)]
pub struct EstimationError {
    pub message: String,
}

impl EstimationError {
    pub fn new(message: String) -> (r: EstimationError)
        ensures
            r.message == message,
    {
        EstimationError { message }
    }

    pub fn message(&self) -> (r: &String)
        ensures
            r == self.message,
    {
        &self.message
    }
}

} // verus!
