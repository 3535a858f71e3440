//! Window operations of the pipeline.

use vstd::prelude::*;

verus! {

/// Window operations, independent of how windows are made.
pub trait WindowController {
    /// Show the recording indicator near the text caret; whether the window was found.
    fn show_floating_near_caret(&self) -> bool;

    /// Hide the recording indicator.
    fn hide_floating(&self);

    /// Show the review window near the text caret; whether the window was found.
    fn show_review_near_caret(&self) -> bool;

    /// Hide the review window.
    fn hide_review(&self);

    /// Focus the review window; whether the window was found.
    fn focus_review(&self) -> bool;

    /// Run a script in the review window; whether the window was found.
    fn eval_review_js(&self, js: &str) -> bool;

    /// Announce the review window.
    fn emit_review_show(&self);

    /// Tell the review window the final text.
    fn emit_review_final_text(&self, text: &str);
}

/// Window controller without windows: everything is found.
pub struct NoopWindowController;

impl WindowController for NoopWindowController {
    fn show_floating_near_caret(&self) -> (r: bool)
        ensures
            r,
    {
        true
    }

    fn hide_floating(&self) {
    }

    fn show_review_near_caret(&self) -> (r: bool)
        ensures
            r,
    {
        true
    }

    fn hide_review(&self) {
    }

    fn focus_review(&self) -> (r: bool)
        ensures
            r,
    {
        true
    }

    fn eval_review_js(&self, _js: &str) -> (r: bool)
        ensures
            r,
    {
        true
    }

    fn emit_review_show(&self) {
    }

    fn emit_review_final_text(&self, _text: &str) {
    }
}


} // verus!
