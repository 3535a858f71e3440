//! What the host is asked to do.

use crate::commands::{Content, Payload};
use crate::perf::PerfMetrics;
use vstd::prelude::*;

verus! {

/// One thing for the host to do. The host performs the actions of a list in order.
pub enum Action {
    /// Show the recording indicator near the text caret.
    ShowFloating,
    HideFloating,
    /// Show the review window near the text caret; whether it was found is reported back where a
    /// step asks for it.
    ShowReview,
    HideReview,
    /// Give the focus back to a window.
    RestoreForeground(isize),
    /// Run a script in the review window.
    EvalReviewJs(String),
    /// Tell the review window the final text.
    EmitReviewFinalText(String),
    /// Emit an event to the frontend.
    Emit(&'static str, Payload),
    /// Forget the samples of the previous recording.
    ClearRing,
    /// Start audio capture; the outcome is reported back.
    StartCapture,
    StopCapture,
    /// Start the realtime transcription loop for this sample rate.
    StartRealtime(u32),
    /// Stop the realtime transcription loop.
    StopRealtime,
    /// Remember what the clipboard holds.
    SaveClipboard,
    /// Put back what was remembered of the clipboard.
    RestoreClipboard,
    /// Put back what was remembered of the clipboard, if anything was.
    RestoreClipboardIfSaved,
    /// Remember what the clipboard holds and paste the text; the outcome is reported back.
    SaveAndInject(String),
    /// Leave the text in the clipboard.
    SetClipboard(String),
    /// Paste the text.
    InjectText(String),
    /// Wait so many milliseconds.
    Sleep(u64),
    /// Stop the delivery whose token has this number: the speech engine is to give it up.
    CancelDelivery(u64),
    /// Stop the transcription of a recording whose token has this number.
    CancelTranscription(u64),
    /// Note the texts of a saved recording: file, raw transcription, corrected text, final text.
    UpdateJson(String, String, Option<String>, Option<String>),
}

/// What an action says.
pub enum Act {
    ShowFloating,
    HideFloating,
    ShowReview,
    HideReview,
    RestoreForeground(isize),
    EvalReviewJs(Seq<char>),
    EmitReviewFinalText(Seq<char>),
    Emit(Seq<char>, Content),
    ClearRing,
    StartCapture,
    StopCapture,
    StartRealtime(u32),
    StopRealtime,
    SaveClipboard,
    RestoreClipboard,
    RestoreClipboardIfSaved,
    SaveAndInject(Seq<char>),
    SetClipboard(Seq<char>),
    InjectText(Seq<char>),
    Sleep(u64),
    CancelDelivery(u64),
    CancelTranscription(u64),
    UpdateJson(Seq<char>, Seq<char>, Option<Seq<char>>, Option<Seq<char>>),
}

impl View for Action {
    type V = Act;

    open spec fn view(&self) -> Act {
        match self {
            Action::ShowFloating => Act::ShowFloating,
            Action::HideFloating => Act::HideFloating,
            Action::ShowReview => Act::ShowReview,
            Action::HideReview => Act::HideReview,
            Action::RestoreForeground(h) => Act::RestoreForeground(*h),
            Action::EvalReviewJs(s) => Act::EvalReviewJs(s@),
            Action::EmitReviewFinalText(s) => Act::EmitReviewFinalText(s@),
            Action::Emit(name, p) => Act::Emit(name@, p@),
            Action::ClearRing => Act::ClearRing,
            Action::StartCapture => Act::StartCapture,
            Action::StopCapture => Act::StopCapture,
            Action::StartRealtime(r) => Act::StartRealtime(*r),
            Action::StopRealtime => Act::StopRealtime,
            Action::SaveClipboard => Act::SaveClipboard,
            Action::RestoreClipboard => Act::RestoreClipboard,
            Action::RestoreClipboardIfSaved => Act::RestoreClipboardIfSaved,
            Action::SaveAndInject(s) => Act::SaveAndInject(s@),
            Action::SetClipboard(s) => Act::SetClipboard(s@),
            Action::InjectText(s) => Act::InjectText(s@),
            Action::Sleep(ms) => Act::Sleep(*ms),
            Action::CancelDelivery(id) => Act::CancelDelivery(*id),
            Action::CancelTranscription(id) => Act::CancelTranscription(*id),
            Action::UpdateJson(path, raw, llm, text) => Act::UpdateJson(
                path@,
                raw@,
                crate::data_saving::text_of(*llm),
                crate::data_saving::text_of(*text),
            ),
        }
    }
}

/// What a list of actions says.
pub open spec fn acts(v: Seq<Action>) -> Seq<Act> {
    v.map_values(|a: Action| a@)
}

/// An empty list of actions.
pub fn nothing() -> (v: Vec<Action>)
    ensures
        acts(v@) == Seq::<Act>::empty(),
{
    let v: Vec<Action> = Vec::new();
    assert(acts(v@) =~= Seq::<Act>::empty());
    v
}

/// Put an action at the end of a list.
pub fn queue(v: &mut Vec<Action>, a: Action)
    ensures
        acts(final(v)@) == acts(old(v)@).push(a@),
{
    v.push(a);
    assert(acts(v@) =~= acts(old(v)@).push(a@));
}

/// Put a list of actions at the end of another.
pub fn queue_all(v: &mut Vec<Action>, more: Vec<Action>)
    ensures
        acts(final(v)@) == acts(old(v)@) + acts(more@),
{
    let mut more = more;
    let ghost given = more@;
    v.append(&mut more);
    assert(acts(v@) =~= acts(old(v)@) + acts(given));
}

/// An event that carries nothing.
pub open spec fn event(name: Seq<char>) -> Act {
    Act::Emit(name, Content::Null)
}

/// An event that carries a text.
pub open spec fn text_event(name: Seq<char>, text: Seq<char>) -> Act {
    Act::Emit(name, Content::Text(text))
}

/// An event that carries the metrics of a cycle.
pub open spec fn metrics_event(m: PerfMetrics) -> Act {
    Act::Emit("perf-metrics"@, Content::Metrics(m))
}

/// Emit an event that carries nothing.
pub fn emit(v: &mut Vec<Action>, name: &'static str)
    ensures
        acts(final(v)@) == acts(old(v)@).push(event(name@)),
{
    queue(v, Action::Emit(name, Payload::Null));
}

/// Emit an event that carries a text.
pub fn emit_text(v: &mut Vec<Action>, name: &'static str, text: &str)
    ensures
        acts(final(v)@) == acts(old(v)@).push(text_event(name@, text@)),
{
    queue(v, Action::Emit(name, Payload::Text(text.to_owned())));
}

/// Emit the metrics of a cycle.
pub fn emit_metrics(v: &mut Vec<Action>, m: PerfMetrics)
    ensures
        acts(final(v)@) == acts(old(v)@).push(metrics_event(m)),
{
    queue(v, Action::Emit("perf-metrics", Payload::Metrics(m)));
}

} // verus!
