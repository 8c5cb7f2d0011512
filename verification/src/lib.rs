//! Core of a neural text-to-audio generator: the autoregressive
//! multi-codebook generation pipeline.
//!
//! The library owns the token-level logic of a generation run: the
//! delay-pattern token grid, the incremental decoder loop with its
//! key/value-cache bookkeeping, top-k candidate selection, the
//! undelay/alignment stage and prompt validation.  Model inference,
//! tensor arithmetic and file handling are collaborators that the
//! surrounding application supplies.

#![verifier::loop_isolation(false)]

use vstd::prelude::*;

pub mod audio_buffer;
pub mod codec;
pub mod config;
pub mod delay;
pub mod decoder;
pub mod sampler;
pub mod text;

verus! {

/// A terminal failure of a generation run, per error policy: every kind
/// aborts the whole run; there is no partial result and no retry.
#[derive(Debug, Clone, PartialEq, Eq)]
pub enum GenError {
    /// The prompt could not be tokenized, or was empty/whitespace-only.
    Tokenization(String),
    /// An underlying model call failed (missing output, runtime fault).
    ModelInvocation(String),
    /// An internal tensor-shape invariant was violated; a programming fault.
    Shape(String),
    /// Cooperative cancellation was observed at a step boundary.
    Cancelled,
    /// A loop-level failure not otherwise classified.
    Generation(String),
}

impl GenError {
    /// A human-readable description of the failure.
    pub fn message(&self) -> (r: String)
        ensures
            match self {
                GenError::Tokenization(m) => r@ == m@,
                GenError::ModelInvocation(m) => r@ == m@,
                GenError::Shape(m) => r@ == m@,
                GenError::Cancelled => r@ == "generation was cancelled"@,
                GenError::Generation(m) => r@ == m@,
            },
    {
        match self {
            GenError::Tokenization(m) => m.clone(),
            GenError::ModelInvocation(m) => m.clone(),
            GenError::Shape(m) => m.clone(),
            GenError::Cancelled => "generation was cancelled".to_owned(),
            GenError::Generation(m) => m.clone(),
        }
    }
}

/// Where a generation run currently stands, as shown to the surrounding
/// application.
#[derive(Debug, Clone, PartialEq)]
pub enum GenerationState {
    Idle,
    Generating,
    Complete,
    Error(String),
}

} // verus!
