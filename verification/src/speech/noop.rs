//! Engine for builds without a speech backend.

use crate::error::AppError;
use vstd::prelude::*;

verus! {

/// Engine that is never ready and refuses every clip.
pub struct NoopEngine;

impl NoopEngine {
    pub fn new() -> (e: Self) {
        NoopEngine
    }

    pub fn transcribe_sync<T>(&self, _samples: &[T]) -> (r: Result<String, AppError>)
        ensures
            r matches Err(e) && e is Speech && e.detail()
                == "Speech engine not available in this build (whisper feature disabled)"@,
    {
        Err(
            AppError::Speech(
                "Speech engine not available in this build (whisper feature disabled)".to_owned(),
            ),
        )
    }

    pub fn is_ready(&self) -> (r: bool)
        ensures
            !r,
    {
        false
    }

    pub fn name(&self) -> (s: &'static str)
        ensures
            s@ == "noop"@,
    {
        "noop"
    }

    pub fn compute_mode(&self) -> (s: &'static str)
        ensures
            s@ == "unloaded"@,
    {
        "unloaded"
    }
}

} // verus!
