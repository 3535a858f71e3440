//! Engine with a canned answer.

use crate::error::AppError;
use crate::speech;
use crate::speech::{whole_clip_segments, Segment, CANCELLED_MESSAGE};
use vstd::prelude::*;

verus! {

/// Speech engine that answers every clip alike.
pub struct MockEngine {
    pub response: String,
    pub ready: bool,
    pub segments: Option<Vec<Segment>>,
}

impl MockEngine {
    /// Create an engine that always returns the given response.
    pub fn new(response: &str) -> (e: Self)
        ensures
            e.response@ == response@,
            e.ready,
            e.segments is None,
    {
        MockEngine { response: response.to_owned(), ready: true, segments: None }
    }

    /// Change the response.
    pub fn set_response(&mut self, response: &str)
        ensures
            final(self).response@ == response@,
            final(self).ready == old(self).ready,
            final(self).segments == old(self).segments,
    {
        self.response = response.to_owned();
    }

    /// Set whether the engine reports itself as ready.
    pub fn set_ready(&mut self, ready: bool)
        ensures
            *final(self) == (MockEngine { ready, ..*old(self) }),
    {
        self.ready = ready;
    }

    /// The same engine, with fixed segments.
    pub fn with_segments(self, segments: Vec<Segment>) -> (e: Self)
        ensures
            e == (MockEngine { segments: Some(segments), ..self }),
    {
        MockEngine { response: self.response, ready: self.ready, segments: Some(segments) }
    }

    /// Transcribe: the response, or an error while the engine is not ready.
    pub fn transcribe_sync<T>(&self, _samples: &[T]) -> (r: Result<String, AppError>)
        ensures
            match r {
                Ok(s) => self.ready && s == self.response,
                Err(e) => !self.ready && e is Speech && e.detail() == "mock engine not ready"@,
            },
    {
        if !self.ready {
            return Err(AppError::Speech("mock engine not ready".to_owned()));
        }
        Ok(self.response.clone())
    }

    /// Transcribe with prior context, which is ignored.
    pub fn transcribe_sync_with_context<T>(&self, samples: &[T], _context: Option<&str>) -> (r:
        Result<String, AppError>)
        ensures
            match r {
                Ok(s) => self.ready && s == self.response,
                Err(e) => !self.ready && e is Speech && e.detail() == "mock engine not ready"@,
            },
    {
        self.transcribe_sync(samples)
    }

    /// Transcribe into segments: the fixed ones, or one that spans the clip. Nothing comes of a
    /// cancelled transcription.
    pub fn transcribe_with_segments_sync<T>(&self, samples: &[T], cancelled: bool) -> (r: Result<
        Vec<Segment>,
        AppError,
    >)
        ensures
            cancelled ==> (r matches Err(e) && e is Speech && e.detail() == CANCELLED_MESSAGE@),
            !cancelled ==> match self.segments {
                Some(fixed) => r matches Ok(v) && speech::same_segments(v@, fixed@),
                None => match r {
                    Ok(v) => self.ready && v@.len() == 1 && v@[0].text == self.response
                        && v@[0].start_ms == 0 && v@[0].end_ms == speech::clip_ms(samples@.len()),
                    Err(e) => !self.ready && e is Speech && e.detail() == "mock engine not ready"@,
                },
            },
    {
        match &self.segments {
            Some(fixed) => {
                if cancelled {
                    return Err(AppError::Speech(CANCELLED_MESSAGE.to_owned()));
                }
                let mut v: Vec<Segment> = Vec::new();
                let mut i: usize = 0;
                while i < fixed.len()
                    invariant
                        i <= fixed@.len(),
                        v@.len() == i,
                        forall|k: int| 0 <= k < i ==> #[trigger] v@[k] == fixed@[k],
                    decreases fixed@.len() - i,
                {
                    v.push(fixed[i].clone());
                    i = i + 1;
                }
                Ok(v)
            },
            None => {
                let text = self.transcribe_sync(samples);
                whole_clip_segments(cancelled, text, samples.len())
            },
        }
    }

    pub fn is_ready(&self) -> (r: bool)
        ensures
            r == self.ready,
    {
        self.ready
    }

    pub fn name(&self) -> (s: &'static str)
        ensures
            s@ == "Mock"@,
    {
        "Mock"
    }

    pub fn compute_mode(&self) -> (s: &'static str)
        ensures
            s@ == "unloaded"@,
    {
        "unloaded"
    }
}

} // verus!
