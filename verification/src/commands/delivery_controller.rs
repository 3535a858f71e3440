//! What happens to a text once it has been transcribed: it is pasted at once, or shown for review
//! and pasted once confirmed.
//!
//! A paste and the showing of a window are the host's; a method that needs one ends with the action
//! for it, and the method that takes the outcome goes on from there.

use crate::commands::actions;
use crate::commands::actions::{
    acts, emit, emit_metrics, emit_text, nothing, queue, queue_all, Act, Action,
};
use crate::commands::pipeline_state;
use crate::commands::pipeline_state::PipelineState;
use crate::commands::review;
use crate::commands::review::{PendingReview, ReviewData};
use crate::data_saving::SaveResult;
use crate::error::CommandError;
use crate::perf;
use crate::perf::{PerfHistory, PerfMetrics};
use crate::state;
use crate::state::{StateTag, Verb};
use crate::text;
use vstd::prelude::*;

verus! {

/// How long the system gets to process a change of focus before a paste, in milliseconds.
pub const FOCUS_WAIT_MS: u64 = 100;

/// What is kept while the review window is visible.
pub struct DeliveryContext {
    pub foreground_hwnd: Option<isize>,
    pub data_saving: Option<ReviewData>,
    pub perf: Option<PerfMetrics>,
    /// When the hotkey was pressed, on the clock of the host in milliseconds.
    pub t_press_for_e2e: Option<u64>,
}

/// Nothing is kept.
pub open spec fn no_context() -> DeliveryContext {
    DeliveryContext { foreground_hwnd: None, data_saving: None, perf: None, t_press_for_e2e: None }
}

/// What was kept, taken out.
pub struct TakenContext {
    pub foreground_hwnd: Option<isize>,
    pub data_saving: Option<ReviewData>,
    pub perf: PerfMetrics,
    pub t_press_for_e2e: Option<u64>,
}

/// A text that is being pasted.
pub struct Injection {
    pub text: String,
    pub review_data: Option<ReviewData>,
    pub perf: PerfMetrics,
    pub t_press_for_e2e: u64,
}

/// A reviewed text that is being pasted.
pub struct Confirmation {
    pub text: String,
    pub context: TakenContext,
}

/// What follows the call that shows a review.
pub enum ReviewStep {
    /// Nothing is awaited.
    Settled,
    /// The host says whether the review window was found.
    AwaitWindow(Injection),
}

/// How a delivery ends.
pub enum FinishOutcome {
    /// The text has been pasted.
    Deliver { final_text: String, hide_review: bool },
    /// The user has cancelled the review.
    Cancel,
    /// A review command came in the wrong state.
    EarlyStateMismatch,
}

/// What is to be noted about a saved recording once its text has been delivered.
pub open spec fn review_data_of(
    save_result: Option<SaveResult>,
    transcription: String,
    text: String,
    llm_enabled: bool,
) -> Option<ReviewData> {
    match save_result {
        Some(sr) => Some(
            ReviewData {
                json_path: sr.json_path,
                raw_transcription: transcription,
                llm_text: if llm_enabled {
                    Some(text)
                } else {
                    None
                },
            },
        ),
        None => None,
    }
}

/// Gather what is to be noted about a saved recording.
pub fn review_data(
    save_result: Option<SaveResult>,
    transcription: String,
    text: &String,
    llm_enabled: bool,
) -> (d: Option<ReviewData>)
    ensures
        d == review_data_of(save_result, transcription, *text, llm_enabled),
{
    match save_result {
        Some(sr) => Some(
            ReviewData {
                json_path: sr.json_path,
                raw_transcription: transcription,
                llm_text: if llm_enabled {
                    Some(text.clone())
                } else {
                    None
                },
            },
        ),
        None => None,
    }
}

/// The note about a saved recording, if there is one.
pub open spec fn note_acts(data: Option<ReviewData>, final_text: Option<Seq<char>>) -> Seq<Act> {
    match data {
        Some(d) => seq![review::review_note(d, final_text)],
        None => seq![],
    }
}

/// The metrics after a paste.
pub open spec fn timed(
    m: PerfMetrics,
    injection_ms: u64,
    end_to_end_ms: Option<u64>,
    text: Seq<char>,
) -> PerfMetrics {
    PerfMetrics {
        injection_ms: Some(injection_ms),
        end_to_end_ms,
        text_length: text.len() as usize,
        ..m
    }
}

/// The time between two moments, none where the second comes first.
pub open spec fn span(from: u64, to: u64) -> u64 {
    if from <= to {
        (to - from) as u64
    } else {
        0
    }
}

/// The time between two moments, none where the second comes first.
pub fn elapsed(from: u64, to: u64) -> (ms: u64)
    ensures
        ms == span(from, to),
{
    if from <= to {
        to - from
    } else {
        0
    }
}

/// Note the times and the length of a pasted text.
pub fn note_paste(m: PerfMetrics, injection_ms: u64, end_to_end_ms: Option<u64>, text: &str) -> (r:
    PerfMetrics)
    ensures
        r == timed(m, injection_ms, end_to_end_ms, text@),
{
    let mut m = m;
    m.injection_ms = Some(injection_ms);
    m.end_to_end_ms = end_to_end_ms;
    m.text_length = text::chars_of(text).len();
    m
}

/// The history after a cycle ID has been handed out.
pub open spec fn id_taken(before: PerfHistory, after: PerfHistory) -> bool {
    &&& after.entries() == before.entries()
    &&& after.next_id() == (if before.next_id() == u64::MAX {
        0
    } else {
        before.next_id() + 1
    })
}

/// The history after a cycle has been recorded.
pub open spec fn cycle_recorded(before: PerfHistory, after: PerfHistory, m: PerfMetrics) -> bool {
    &&& after.next_id() == before.next_id()
    &&& after.entries() == perf::last_of(
        before.entries().push(m),
        PerfHistory::CAPACITY as nat,
    )
}

/// The history after a cycle ID has been handed out and a cycle has been recorded.
pub open spec fn id_taken_and_recorded(
    before: PerfHistory,
    after: PerfHistory,
    m: PerfMetrics,
) -> bool {
    &&& after.next_id() == (if before.next_id() == u64::MAX {
        0
    } else {
        before.next_id() + 1
    })
    &&& after.entries() == perf::last_of(
        before.entries().push(m),
        PerfHistory::CAPACITY as nat,
    )
}

/// What the host does once a text has been pasted.
pub open spec fn delivered_acts(
    data: Option<ReviewData>,
    text: Seq<char>,
    hide_review: bool,
    m: PerfMetrics,
) -> Seq<Act> {
    seq![actions::event("injection-complete"@)] + (if hide_review {
        seq![Act::HideReview]
    } else {
        seq![]
    }) + seq![Act::HideFloating] + note_acts(data, Some(text)) + seq![actions::metrics_event(m)]
}

/// What the host does once a review has been cancelled.
pub open spec fn cancelled_acts(hwnd: Option<isize>, data: Option<ReviewData>) -> Seq<Act> {
    seq![Act::RestoreClipboardIfSaved] + (match hwnd {
        Some(h) => seq![Act::RestoreForeground(h)],
        None => seq![],
    }) + seq![Act::HideFloating, Act::HideReview] + note_acts(data, None)
}

/// What the host does when a review command comes in the wrong state.
pub open spec fn mismatch_acts(realtime: bool) -> Seq<Act> {
    pipeline_state::stop_acts(realtime) + seq![Act::HideFloating, Act::HideReview]
}

/// The message of a paste whose task died.
pub fn task_failure(e: &str) -> (s: String)
    ensures
        s@ == "inject task panicked: "@ + e@,
{
    "inject task panicked: ".to_owned().concat(e)
}

/// A digit in base sixteen, in lower case.
pub open spec fn hex_digit(d: nat) -> char {
    if d < 10 {
        ('0' as nat + d) as char
    } else {
        ('a' as nat + (d - 10)) as char
    }
}

/// How a character stands in a JSON string literal: quotes, backslashes and control characters are
/// escaped, everything else stands for itself.
pub open spec fn json_char(c: char) -> Seq<char> {
    if c == '"' || c == '\\' {
        seq!['\\', c]
    } else if c == '\u{8}' {
        seq!['\\', 'b']
    } else if c == '\t' {
        seq!['\\', 't']
    } else if c == '\n' {
        seq!['\\', 'n']
    } else if c == '\u{C}' {
        seq!['\\', 'f']
    } else if c == '\r' {
        seq!['\\', 'r']
    } else if (c as nat) < 0x20 {
        seq!['\\', 'u', '0', '0', hex_digit(c as nat / 16), hex_digit(c as nat % 16)]
    } else {
        seq![c]
    }
}

/// What stands between the quotes of the JSON string literal for a text.
pub open spec fn json_body(text: Seq<char>) -> Seq<char>
    decreases text.len(),
{
    if text.len() == 0 {
        seq![]
    } else {
        json_char(text[0]) + json_body(text.skip(1))
    }
}

/// The JSON string literal for a text.
pub open spec fn json_string(text: Seq<char>) -> Seq<char> {
    seq!['"'] + json_body(text) + seq!['"']
}

/// `serde_json::to_string` on a text: the characters of the text between quotes, each escaped where
/// JSON asks for it, by a letter where there is one and by four digits otherwise. It does not fail
/// on a text.
#[verifier::external_body]
fn to_json_string(text: &str) -> (s: String)
    ensures
        s@ == json_string(text@),
{
    serde_json::to_string(text).unwrap_or_default()
}

/// The script that puts a text, given as a JSON string literal, into the review window.
pub open spec fn script_for(json_text: Seq<char>) -> Seq<char> {
    "(function(){var t=document.getElementById('review-text');if(t){t.value="@ + json_text
        + ";t.selectionStart=t.selectionEnd=t.value.length;t.scrollTop=t.scrollHeight;}var p=document.getElementById('preview');if(p){p.textContent='';p.classList.remove('visible');}var b=document.getElementById('btn-confirm');if(b){b.disabled=false;}})()"@
}

/// Build the script that puts a text, given as a JSON string literal, into the review window.
pub fn review_script(json_text: &str) -> (s: String)
    ensures
        s@ == script_for(json_text@),
{
    "(function(){var t=document.getElementById('review-text');if(t){t.value=".to_owned().concat(
        json_text,
    ).concat(
        ";t.selectionStart=t.selectionEnd=t.value.length;t.scrollTop=t.scrollHeight;}var p=document.getElementById('preview');if(p){p.textContent='';p.classList.remove('visible');}var b=document.getElementById('btn-confirm');if(b){b.disabled=false;}})()",
    )
}

/// Update the review window that is already visible.
pub fn push_to_review(v: &mut Vec<Action>, text: &str)
    ensures
        acts(final(v)@) == acts(old(v)@) + seq![
            Act::EvalReviewJs(script_for(json_string(text@))),
            Act::EmitReviewFinalText(text@),
        ],
{
    let json = to_json_string(text);
    queue(v, Action::EvalReviewJs(review_script(json.as_str())));
    queue(v, Action::EmitReviewFinalText(text.to_owned()));
    assert(acts(v@) =~= acts(old(v)@) + seq![
        Act::EvalReviewJs(script_for(json_string(text@))),
        Act::EmitReviewFinalText(text@),
    ]);
}

/// Single authority for the delivery of a text.
pub struct DeliveryController {
    pub context: DeliveryContext,
}

impl DeliveryController {
    pub fn new() -> (d: Self)
        ensures
            d.context == no_context(),
    {
        DeliveryController {
            context: DeliveryContext {
                foreground_hwnd: None,
                data_saving: None,
                perf: None,
                t_press_for_e2e: None,
            },
        }
    }

    fn store_foreground(&mut self, hwnd: isize)
        ensures
            final(self).context == (DeliveryContext {
                foreground_hwnd: Some(hwnd),
                ..old(self).context
            }),
    {
        self.context.foreground_hwnd = Some(hwnd);
    }

    fn store_context(
        &mut self,
        review_data: Option<ReviewData>,
        perf: PerfMetrics,
        t_press_for_e2e: u64,
    )
        ensures
            final(self).context == (DeliveryContext {
                foreground_hwnd: old(self).context.foreground_hwnd,
                data_saving: review_data,
                perf: Some(perf),
                t_press_for_e2e: Some(t_press_for_e2e),
            }),
    {
        self.context.data_saving = review_data;
        self.context.perf = Some(perf);
        self.context.t_press_for_e2e = Some(t_press_for_e2e);
    }

    /// Take out what is kept. A cycle ID is handed out for the case that no metrics are kept.
    pub fn take_context(&mut self, ps: &mut PipelineState) -> (t: TakenContext)
        ensures
            t == (TakenContext {
                foreground_hwnd: old(self).context.foreground_hwnd,
                data_saving: old(self).context.data_saving,
                perf: match old(self).context.perf {
                    Some(m) => m,
                    None => perf::fresh_metrics(old(ps).perf_history.next_id()),
                },
                t_press_for_e2e: old(self).context.t_press_for_e2e,
            }),
            final(self).context == no_context(),
            *final(ps) == (PipelineState { perf_history: final(ps).perf_history, ..*old(ps) }),
            id_taken(old(ps).perf_history, final(ps).perf_history),
    {
        let fresh = PerfMetrics::new(ps.perf_history.next_cycle_id());
        let foreground_hwnd = self.context.foreground_hwnd.take();
        let data_saving = self.context.data_saving.take();
        let perf = match self.context.perf.take() {
            Some(m) => m,
            None => fresh,
        };
        let t_press_for_e2e = self.context.t_press_for_e2e.take();
        TakenContext { foreground_hwnd, data_saving, perf, t_press_for_e2e }
    }

    /// Single authority for the order of the clean-up after a delivery. Metrics are recorded only
    /// for a pasted text, and only where they are given.
    pub fn finish(
        &mut self,
        ps: &mut PipelineState,
        ctx: TakenContext,
        outcome: FinishOutcome,
        perf_record_input: Option<PerfMetrics>,
    ) -> (v: Vec<Action>)
        requires
            old(ps).wf(),
        ensures
            final(ps).wf(),
            *final(self) == *old(self),
            match outcome {
                FinishOutcome::Deliver { final_text, hide_review } => {
                    &&& *final(ps) == (PipelineState {
                        sm: final(ps).sm,
                        perf_history: final(ps).perf_history,
                        ..*old(ps)
                    })
                    &&& final(ps).sm@ == state::after(old(ps).sm@, Verb::FinishInjecting)
                    &&& match perf_record_input {
                        Some(m) => {
                            &&& cycle_recorded(old(ps).perf_history, final(ps).perf_history, m)
                            &&& acts(v@) == delivered_acts(
                                ctx.data_saving,
                                final_text@,
                                hide_review,
                                m,
                            )
                        },
                        None => {
                            &&& final(ps).perf_history == old(ps).perf_history
                            &&& acts(v@) == delivered_acts(
                                ctx.data_saving,
                                final_text@,
                                hide_review,
                                ctx.perf,
                            ).drop_last()
                        },
                    }
                },
                FinishOutcome::Cancel => {
                    &&& *final(ps) == (PipelineState {
                        review: PendingReview { shown_on_press: false, ..old(ps).review },
                        ..*old(ps)
                    })
                    &&& acts(v@) == cancelled_acts(ctx.foreground_hwnd, ctx.data_saving)
                },
                FinishOutcome::EarlyStateMismatch => {
                    &&& *final(ps) == (PipelineState {
                        sm: final(ps).sm,
                        review: PendingReview { shown_on_press: false, ..old(ps).review },
                        realtime: None,
                        ..*old(ps)
                    })
                    &&& final(ps).sm@ == StateTag::Idle
                    &&& acts(v@) == mismatch_acts(old(ps).realtime is Some)
                },
            },
    {
        let mut v = nothing();
        match outcome {
            FinishOutcome::Deliver { final_text, hide_review } => {
                ps.sm_finish_injecting();
                emit(&mut v, "injection-complete");
                if hide_review {
                    queue(&mut v, Action::HideReview);
                }
                queue(&mut v, Action::HideFloating);
                let ghost data = ctx.data_saving;
                let ghost text = final_text@;
                if let Some(rd) = ctx.data_saving {
                    queue(
                        &mut v,
                        Action::UpdateJson(
                            rd.json_path,
                            rd.raw_transcription,
                            rd.llm_text,
                            Some(final_text),
                        ),
                    );
                }
                if let Some(m) = perf_record_input {
                    ps.perf_history.record(m);
                    emit_metrics(&mut v, m);
                    assert(acts(v@) =~= delivered_acts(data, text, hide_review, m));
                } else {
                    assert(acts(v@) =~= delivered_acts(data, text, hide_review, ctx.perf)
                        .drop_last());
                }
            },
            FinishOutcome::Cancel => {
                queue(&mut v, Action::RestoreClipboardIfSaved);
                if let Some(hwnd) = ctx.foreground_hwnd {
                    queue(&mut v, Action::RestoreForeground(hwnd));
                }
                queue(&mut v, Action::HideFloating);
                queue(&mut v, Action::HideReview);
                ps.review.shown_on_press = false;
                let ghost data = ctx.data_saving;
                if let Some(rd) = ctx.data_saving {
                    queue(
                        &mut v,
                        Action::UpdateJson(rd.json_path, rd.raw_transcription, rd.llm_text, None),
                    );
                }
                assert(acts(v@) =~= cancelled_acts(ctx.foreground_hwnd, data));
            },
            FinishOutcome::EarlyStateMismatch => {
                let stops = ps.stop_recording_resources_graceful();
                queue_all(&mut v, stops);
                ps.sm_reset();
                queue(&mut v, Action::HideFloating);
                queue(&mut v, Action::HideReview);
                ps.review.shown_on_press = false;
                assert(acts(v@) =~= mismatch_acts(old(ps).realtime is Some));
            },
        }
        v
    }
}

/// The transition that takes a transcribed or refined text to the paste.
pub open spec fn inject_verb(llm_transition: bool) -> Verb {
    if llm_transition {
        Verb::LlmToInjecting
    } else {
        Verb::TranscribingToInjecting
    }
}

/// The transition that takes a transcribed or refined text to the review.
pub open spec fn review_verb(llm_transition: bool) -> Verb {
    if llm_transition {
        Verb::LlmToReviewing
    } else {
        Verb::TranscribingToReviewing
    }
}

/// What the host does when a paste has failed.
pub open spec fn failed_acts(message: Seq<char>, hide_review: bool) -> Seq<Act> {
    seq![actions::text_event("injection-error"@, message), Act::RestoreClipboard] + (if hide_review {
        seq![Act::HideReview, Act::HideFloating]
    } else {
        seq![Act::HideFloating]
    })
}

impl DeliveryController {
    /// Paste a text at once. The recording has been stopped. Where the transition to the paste is
    /// refused, nothing is pasted and the state machine is reset.
    pub fn inject_direct(
        &mut self,
        ps: &mut PipelineState,
        text: String,
        transcription: String,
        save_result: Option<SaveResult>,
        llm_enabled: bool,
        perf: PerfMetrics,
        t_press_for_e2e: u64,
        llm_transition: bool,
    ) -> (r: (Vec<Action>, Option<Injection>))
        ensures
            *final(self) == *old(self),
            *final(ps) == (PipelineState {
                sm: final(ps).sm,
                cancel_token: final(ps).cancel_token,
                ..*old(ps)
            }),
            state::allowed(old(ps).sm@, inject_verb(llm_transition)) ==> {
                &&& final(ps).sm@ == StateTag::Injecting
                &&& final(ps).cancel_token == old(ps).cancel_token
                &&& acts(r.0@) == seq![Act::SaveAndInject(text@)]
                &&& r.1 == Some(
                    Injection {
                        text,
                        review_data: review_data_of(save_result, transcription, text, llm_enabled),
                        perf,
                        t_press_for_e2e,
                    },
                )
            },
            !state::allowed(old(ps).sm@, inject_verb(llm_transition)) ==> {
                &&& final(ps).sm@ == StateTag::Idle
                &&& final(ps).cancel_token is None
                &&& acts(r.0@) == Seq::<Act>::empty()
                &&& r.1 is None
            },
    {
        let transitioned = if llm_transition {
            ps.sm_llm_to_injecting()
        } else {
            ps.sm_transcribing_to_injecting()
        };
        let mut v = nothing();
        if !transitioned {
            ps.take_cancel_token();
            ps.sm_reset();
            return (v, None);
        }
        queue(&mut v, Action::SaveAndInject(text.clone()));
        assert(acts(v@) =~= seq![Act::SaveAndInject(text@)]);
        let data = review_data(save_result, transcription, &text, llm_enabled);
        (v, Some(Injection { text, review_data: data, perf, t_press_for_e2e }))
    }

    /// Go on after a direct paste: a failure is reported and the clipboard restored; a success ends
    /// the cycle.
    pub fn direct_injected(
        &mut self,
        ps: &mut PipelineState,
        injection: Injection,
        outcome: Result<(), String>,
        injection_ms: u64,
        now: u64,
    ) -> (v: Vec<Action>)
        requires
            old(ps).wf(),
        ensures
            final(ps).wf(),
            *final(ps) == (PipelineState {
                sm: final(ps).sm,
                perf_history: final(ps).perf_history,
                cancel_token: None,
                ..*old(ps)
            }),
            match outcome {
                Err(e) => {
                    &&& *final(self) == *old(self)
                    &&& final(ps).perf_history == old(ps).perf_history
                    &&& final(ps).sm@ == StateTag::Idle
                    &&& acts(v@) == failed_acts(e@, false)
                },
                Ok(_) => {
                    let m = timed(
                        injection.perf,
                        injection_ms,
                        Some(span(injection.t_press_for_e2e, now)),
                        injection.text@,
                    );
                    &&& final(self).context == no_context()
                    &&& id_taken_and_recorded(old(ps).perf_history, final(ps).perf_history, m)
                    &&& final(ps).sm@ == state::after(old(ps).sm@, Verb::FinishInjecting)
                    &&& acts(v@) == delivered_acts(
                        injection.review_data,
                        injection.text@,
                        false,
                        m,
                    )
                },
            },
    {
        ps.take_cancel_token();
        let e2e = elapsed(injection.t_press_for_e2e, now);
        let m = note_paste(injection.perf, injection_ms, Some(e2e), injection.text.as_str());
        match outcome {
            Err(e) => {
                let mut v = nothing();
                emit_text(&mut v, "injection-error", e.as_str());
                queue(&mut v, Action::RestoreClipboard);
                queue(&mut v, Action::HideFloating);
                ps.sm_reset();
                assert(acts(v@) =~= failed_acts(e@, false));
                v
            },
            Ok(_) => {
                self.store_context(injection.review_data, m, injection.t_press_for_e2e);
                let ctx = self.take_context(ps);
                let perf_for_record = ctx.perf;
                self.finish(
                    ps,
                    ctx,
                    FinishOutcome::Deliver { final_text: injection.text, hide_review: false },
                    Some(perf_for_record),
                )
            },
        }
    }

    /// Show a text for review. `foreground` is the window that has the focus. A review window that
    /// was shown when the hotkey was pressed is updated; otherwise it is shown now, and
    /// [`DeliveryController::review_shown`] goes on. Where the transition to the review is refused,
    /// the clipboard is restored and the state machine reset.
    pub fn show_review(
        &mut self,
        ps: &mut PipelineState,
        final_text: String,
        transcription: String,
        save_result: Option<SaveResult>,
        llm_enabled: bool,
        perf: PerfMetrics,
        t_press_for_e2e: u64,
        llm_transition: bool,
        foreground: isize,
    ) -> (r: (Vec<Action>, ReviewStep))
        ensures
            *final(ps) == (PipelineState {
                sm: final(ps).sm,
                review: final(ps).review,
                cancel_token: final(ps).cancel_token,
                ..*old(ps)
            }),
            final(ps).cancel_token == (if r.1 is Settled {
                None
            } else {
                old(ps).cancel_token
            }),
            !state::allowed(old(ps).sm@, review_verb(llm_transition)) ==> {
                &&& *final(self) == *old(self)
                &&& final(ps).review == old(ps).review
                &&& final(ps).sm@ == StateTag::Idle
                &&& acts(r.0@) == seq![Act::SaveClipboard, Act::RestoreClipboard]
                &&& r.1 is Settled
            },
            state::allowed(old(ps).sm@, review_verb(llm_transition)) ==> {
                let data = review_data_of(save_result, transcription, final_text, llm_enabled);
                &&& final(ps).sm@ == StateTag::Reviewing
                &&& final(ps).review == (PendingReview {
                    text: Some(final_text),
                    foreground_hwnd: None,
                    ..old(ps).review
                })
                &&& if old(ps).review.shown_on_press {
                    &&& final(self).context == (DeliveryContext {
                        foreground_hwnd: match old(ps).review.foreground_hwnd {
                            Some(h) => Some(h),
                            None => old(self).context.foreground_hwnd,
                        },
                        data_saving: data,
                        perf: Some(perf),
                        t_press_for_e2e: Some(t_press_for_e2e),
                    })
                    &&& acts(r.0@) == seq![
                        Act::SaveClipboard,
                        Act::EvalReviewJs(script_for(json_string(final_text@))),
                        Act::EmitReviewFinalText(final_text@),
                    ]
                    &&& r.1 is Settled
                } else {
                    &&& final(self).context == (DeliveryContext {
                        foreground_hwnd: Some(foreground),
                        ..old(self).context
                    })
                    &&& acts(r.0@) == seq![Act::SaveClipboard, Act::ShowReview]
                    &&& r.1 == ReviewStep::AwaitWindow(
                        Injection { text: final_text, review_data: data, perf, t_press_for_e2e },
                    )
                }
            },
    {
        let mut v = nothing();
        queue(&mut v, Action::SaveClipboard);
        let transitioned = if llm_transition {
            ps.sm_llm_to_reviewing()
        } else {
            ps.sm_transcribing_to_reviewing()
        };
        if !transitioned {
            queue(&mut v, Action::RestoreClipboard);
            ps.take_cancel_token();
            ps.sm_reset();
            assert(acts(v@) =~= seq![Act::SaveClipboard, Act::RestoreClipboard]);
            return (v, ReviewStep::Settled);
        }
        ps.review.text = Some(final_text.clone());
        let data = review_data(save_result, transcription, &final_text, llm_enabled);
        if ps.review.shown_on_press {
            if let Some(hwnd) = ps.review.take_foreground() {
                self.store_foreground(hwnd);
            }
            push_to_review(&mut v, final_text.as_str());
            ps.take_cancel_token();
            self.store_context(data, perf, t_press_for_e2e);
            assert(acts(v@) =~= seq![
                Act::SaveClipboard,
                Act::EvalReviewJs(script_for(json_string(final_text@))),
                Act::EmitReviewFinalText(final_text@),
            ]);
            return (v, ReviewStep::Settled);
        }
        ps.review.save_foreground(foreground);
        if let Some(hwnd) = ps.review.take_foreground() {
            self.store_foreground(hwnd);
        }
        queue(&mut v, Action::ShowReview);
        assert(acts(v@) =~= seq![Act::SaveClipboard, Act::ShowReview]);
        (
            v,
            ReviewStep::AwaitWindow(
                Injection { text: final_text, review_data: data, perf, t_press_for_e2e },
            ),
        )
    }

    /// Go on once the host has tried to show the review window. Where it was not found, the text
    /// is pasted at once, and [`DeliveryController::fallback_injected`] goes on.
    pub fn review_shown(&mut self, ps: &mut PipelineState, pending: Injection, found: bool) -> (r: (
        Vec<Action>,
        Option<Injection>,
    ))
        ensures
            found ==> {
                &&& *final(ps) == (PipelineState { cancel_token: None, ..*old(ps) })
                &&& final(self).context == (DeliveryContext {
                    foreground_hwnd: old(self).context.foreground_hwnd,
                    data_saving: pending.review_data,
                    perf: Some(pending.perf),
                    t_press_for_e2e: Some(pending.t_press_for_e2e),
                })
                &&& acts(r.0@) == Seq::<Act>::empty()
                &&& r.1 is None
            },
            !found ==> {
                &&& *final(ps) == (PipelineState {
                    sm: final(ps).sm,
                    perf_history: final(ps).perf_history,
                    ..*old(ps)
                })
                &&& final(ps).sm@ == state::after(old(ps).sm@, Verb::ReviewingToInjecting)
                &&& id_taken(old(ps).perf_history, final(ps).perf_history)
                &&& final(self).context == no_context()
                &&& acts(r.0@) == seq![Act::SaveAndInject(pending.text@)]
                &&& r.1 == Some(pending)
            },
    {
        let mut v = nothing();
        if found {
            ps.take_cancel_token();
            self.store_context(pending.review_data, pending.perf, pending.t_press_for_e2e);
            return (v, None);
        }
        self.take_context(ps);
        ps.sm_reviewing_to_injecting();
        queue(&mut v, Action::SaveAndInject(pending.text.clone()));
        assert(acts(v@) =~= seq![Act::SaveAndInject(pending.text@)]);
        (v, Some(pending))
    }

    /// Go on after the paste of a text whose review window was not found.
    pub fn fallback_injected(
        &mut self,
        ps: &mut PipelineState,
        injection: Injection,
        outcome: Result<(), String>,
        injection_ms: u64,
        now: u64,
    ) -> (v: Vec<Action>)
        requires
            old(ps).wf(),
        ensures
            final(ps).wf(),
            *final(ps) == (PipelineState {
                sm: final(ps).sm,
                perf_history: final(ps).perf_history,
                cancel_token: None,
                ..*old(ps)
            }),
            match outcome {
                Err(e) => {
                    &&& *final(self) == *old(self)
                    &&& final(ps).perf_history == old(ps).perf_history
                    &&& final(ps).sm@ == StateTag::Idle
                    &&& acts(v@) == failed_acts(e@, true)
                },
                Ok(_) => {
                    let m = timed(
                        injection.perf,
                        injection_ms,
                        Some(span(injection.t_press_for_e2e, now)),
                        injection.text@,
                    );
                    &&& final(self).context == no_context()
                    &&& id_taken_and_recorded(old(ps).perf_history, final(ps).perf_history, m)
                    &&& final(ps).sm@ == state::after(old(ps).sm@, Verb::FinishInjecting)
                    &&& acts(v@) == delivered_acts(injection.review_data, injection.text@, true, m)
                },
            },
    {
        ps.take_cancel_token();
        let e2e = elapsed(injection.t_press_for_e2e, now);
        let m = note_paste(injection.perf, injection_ms, Some(e2e), injection.text.as_str());
        match outcome {
            Err(e) => {
                let mut v = nothing();
                emit_text(&mut v, "injection-error", e.as_str());
                queue(&mut v, Action::RestoreClipboard);
                queue(&mut v, Action::HideReview);
                queue(&mut v, Action::HideFloating);
                ps.sm_reset();
                assert(acts(v@) =~= failed_acts(e@, true));
                v
            },
            Ok(_) => {
                self.store_context(injection.review_data, m, injection.t_press_for_e2e);
                let ctx = self.take_context(ps);
                let perf_for_record = ctx.perf;
                self.finish(
                    ps,
                    ctx,
                    FinishOutcome::Deliver { final_text: injection.text, hide_review: true },
                    Some(perf_for_record),
                )
            },
        }
    }

    /// Hand a recording over to the review window that was shown when the hotkey was pressed.
    pub fn realtime_review_handoff(
        &mut self,
        ps: &mut PipelineState,
        accumulated: Option<String>,
    ) -> (v: Vec<Action>)
        ensures
            acts(v@) == seq![Act::SaveClipboard, Act::HideFloating],
            *final(ps) == (PipelineState {
                sm: final(ps).sm,
                review: PendingReview {
                    text: match accumulated {
                        Some(t) => Some(t),
                        None => old(ps).review.text,
                    },
                    foreground_hwnd: None,
                    ..old(ps).review
                },
                ..*old(ps)
            }),
            final(ps).sm@ == state::after(
                state::after(old(ps).sm@, Verb::StopRecording),
                Verb::TranscribingToReviewing,
            ),
            final(self).context == (DeliveryContext {
                foreground_hwnd: match old(ps).review.foreground_hwnd {
                    Some(h) => Some(h),
                    None => old(self).context.foreground_hwnd,
                },
                ..old(self).context
            }),
    {
        let mut v = nothing();
        queue(&mut v, Action::SaveClipboard);
        ps.sm_stop_recording();
        ps.sm_transcribing_to_reviewing();
        queue(&mut v, Action::HideFloating);
        if let Some(text) = accumulated {
            ps.review.text = Some(text);
        }
        if let Some(hwnd) = ps.review.take_foreground() {
            self.store_foreground(hwnd);
        }
        assert(acts(v@) =~= seq![Act::SaveClipboard, Act::HideFloating]);
        v
    }

    /// Confirm a reviewed text. From Reviewing the focus goes back to where it was, then the text
    /// is pasted, and [`DeliveryController::confirm_injected`] goes on. While a recording is in
    /// progress it is given up. Elsewhere the command is refused.
    pub fn confirm_review(&mut self, ps: &mut PipelineState, text: String) -> (r: (
        Vec<Action>,
        Result<Confirmation, CommandError>,
    ))
        requires
            old(ps).wf(),
        ensures
            final(ps).wf(),
            final(self).context == no_context(),
            id_taken(old(ps).perf_history, final(ps).perf_history),
            r.1 is Ok <==> old(ps).sm@ == StateTag::Reviewing,
            r.1 matches Err(e) ==> e.says("STATE"@, "cannot confirm from current state"@),
            match old(ps).sm@ {
                StateTag::Reviewing => {
                    &&& *final(ps) == (PipelineState {
                        perf_history: final(ps).perf_history,
                        ..*old(ps)
                    })
                    &&& acts(r.0@) == confirm_acts(old(self).context.foreground_hwnd, text@)
                    &&& r.1->Ok_0 == (Confirmation {
                        text,
                        context: TakenContext {
                            foreground_hwnd: old(self).context.foreground_hwnd,
                            data_saving: old(self).context.data_saving,
                            perf: match old(self).context.perf {
                                Some(m) => m,
                                None => perf::fresh_metrics(old(ps).perf_history.next_id()),
                            },
                            t_press_for_e2e: old(self).context.t_press_for_e2e,
                        },
                    })
                },
                StateTag::Recording | StateTag::Transcribing => {
                    &&& *final(ps) == (PipelineState {
                        sm: final(ps).sm,
                        perf_history: final(ps).perf_history,
                        review: PendingReview { shown_on_press: false, ..old(ps).review },
                        realtime: None,
                        ..*old(ps)
                    })
                    &&& final(ps).sm@ == StateTag::Idle
                    &&& acts(r.0@) == mismatch_acts(old(ps).realtime is Some)
                },
                _ => {
                    &&& *final(ps) == (PipelineState {
                        perf_history: final(ps).perf_history,
                        ..*old(ps)
                    })
                    &&& acts(r.0@) == Seq::<Act>::empty()
                },
            },
    {
        let ctx = self.take_context(ps);
        match ps.sm_state() {
            StateTag::Reviewing => {
                let mut v = nothing();
                if let Some(hwnd) = ctx.foreground_hwnd {
                    queue(&mut v, Action::RestoreForeground(hwnd));
                    queue(&mut v, Action::Sleep(FOCUS_WAIT_MS));
                }
                queue(&mut v, Action::SaveAndInject(text.clone()));
                assert(acts(v@) =~= confirm_acts(old(self).context.foreground_hwnd, text@));
                (v, Ok(Confirmation { text, context: ctx }))
            },
            StateTag::Recording | StateTag::Transcribing => {
                let v = self.finish(ps, ctx, FinishOutcome::EarlyStateMismatch, None);
                (v, Err(CommandError::state("cannot confirm from current state")))
            },
            _ => (nothing(), Err(CommandError::state("cannot confirm from current state"))),
        }
    }

    /// Go on after the paste of a reviewed text. A failure is reported, and the clipboard and the
    /// focus are restored. After a success the cycle ends, unless the state machine has left the
    /// review in the meantime.
    pub fn confirm_injected(
        &mut self,
        ps: &mut PipelineState,
        confirmation: Confirmation,
        outcome: Result<(), String>,
        injection_ms: u64,
        now: u64,
    ) -> (v: Vec<Action>)
        requires
            old(ps).wf(),
        ensures
            final(ps).wf(),
            *final(self) == *old(self),
            *final(ps) == (PipelineState {
                sm: final(ps).sm,
                perf_history: final(ps).perf_history,
                ..*old(ps)
            }),
            match outcome {
                Err(e) => {
                    &&& final(ps).perf_history == old(ps).perf_history
                    &&& final(ps).sm@ == StateTag::Idle
                    &&& acts(v@) == confirm_failed_acts(e@, confirmation.context.foreground_hwnd)
                },
                Ok(_) => if old(ps).sm@ == StateTag::Reviewing {
                    let m = timed(
                        confirmation.context.perf,
                        injection_ms,
                        match confirmation.context.t_press_for_e2e {
                            Some(t) => Some(span(t, now)),
                            None => confirmation.context.perf.end_to_end_ms,
                        },
                        confirmation.text@,
                    );
                    &&& cycle_recorded(old(ps).perf_history, final(ps).perf_history, m)
                    &&& final(ps).sm@ == StateTag::Idle
                    &&& acts(v@) == delivered_acts(
                        confirmation.context.data_saving,
                        confirmation.text@,
                        true,
                        m,
                    )
                } else {
                    &&& final(ps).sm@ == old(ps).sm@
                    &&& final(ps).perf_history == old(ps).perf_history
                    &&& acts(v@) == Seq::<Act>::empty()
                },
            },
    {
        let mut ctx = confirmation.context;
        let e2e = match ctx.t_press_for_e2e {
            Some(t) => Some(elapsed(t, now)),
            None => ctx.perf.end_to_end_ms,
        };
        ctx.perf = note_paste(ctx.perf, injection_ms, e2e, confirmation.text.as_str());
        match outcome {
            Err(e) => {
                let mut v = nothing();
                emit_text(&mut v, "injection-error", e.as_str());
                queue(&mut v, Action::RestoreClipboard);
                if let Some(hwnd) = ctx.foreground_hwnd {
                    queue(&mut v, Action::RestoreForeground(hwnd));
                }
                queue(&mut v, Action::HideReview);
                queue(&mut v, Action::HideFloating);
                ps.sm_reset();
                assert(acts(v@) =~= confirm_failed_acts(
                    e@,
                    confirmation.context.foreground_hwnd,
                ));
                v
            },
            Ok(_) => {
                if !ps.sm_reviewing_to_injecting() {
                    return nothing();
                }
                let perf_for_record = ctx.perf;
                self.finish(
                    ps,
                    ctx,
                    FinishOutcome::Deliver { final_text: confirmation.text, hide_review: true },
                    Some(perf_for_record),
                )
            },
        }
    }

    /// Cancel a review. From Reviewing, or while a recording is in progress (which is given up),
    /// everything returns to idle. Elsewhere the command is refused.
    pub fn cancel_review(&mut self, ps: &mut PipelineState) -> (r: (
        Vec<Action>,
        Result<(), CommandError>,
    ))
        requires
            old(ps).wf(),
        ensures
            final(ps).wf(),
            final(self).context == no_context(),
            id_taken(old(ps).perf_history, final(ps).perf_history),
            r.1 is Ok <==> old(ps).sm@ == StateTag::Reviewing || old(ps).sm@ == StateTag::Recording
                || old(ps).sm@ == StateTag::Transcribing,
            r.1 matches Err(e) ==> e.says("STATE"@, "cannot cancel from current state"@),
            r.1 is Err ==> {
                &&& *final(ps) == (PipelineState {
                    perf_history: final(ps).perf_history,
                    ..*old(ps)
                })
                &&& acts(r.0@) == Seq::<Act>::empty()
            },
            r.1 is Ok ==> {
                let ended = cancelled_acts(
                    old(self).context.foreground_hwnd,
                    old(self).context.data_saving,
                );
                &&& final(ps).sm@ == StateTag::Idle
                &&& if old(ps).sm@ == StateTag::Reviewing {
                    &&& *final(ps) == (PipelineState {
                        sm: final(ps).sm,
                        perf_history: final(ps).perf_history,
                        review: PendingReview { shown_on_press: false, ..old(ps).review },
                        ..*old(ps)
                    })
                    &&& acts(r.0@) == ended
                } else {
                    &&& *final(ps) == (PipelineState {
                        sm: final(ps).sm,
                        perf_history: final(ps).perf_history,
                        review: PendingReview { shown_on_press: false, ..old(ps).review },
                        realtime: None,
                        ..*old(ps)
                    })
                    &&& acts(r.0@) == pipeline_state::stop_acts(old(ps).realtime is Some) + ended
                }
            },
    {
        let mut v = nothing();
        match ps.sm_state() {
            StateTag::Reviewing => {
                if !ps.sm_cancel_reviewing() {
                    self.take_context(ps);
                    return (v, Err(CommandError::state("cancel_reviewing failed")));
                }
            },
            StateTag::Recording | StateTag::Transcribing => {
                let stops = ps.stop_recording_resources_graceful();
                queue_all(&mut v, stops);
                ps.sm_reset();
            },
            _ => {
                self.take_context(ps);
                return (v, Err(CommandError::state("cannot cancel from current state")));
            },
        }
        let ghost stopped = acts(v@);
        let ctx = self.take_context(ps);
        let ended = self.finish(ps, ctx, FinishOutcome::Cancel, None);
        let ghost closing = acts(ended@);
        queue_all(&mut v, ended);
        assert(stopped.len() == 0 ==> stopped + closing =~= closing);
        assert(Seq::<Act>::empty() + closing =~= closing);
        (v, Ok(()))
    }
}

/// What the host does to paste a confirmed text.
pub open spec fn confirm_acts(hwnd: Option<isize>, text: Seq<char>) -> Seq<Act> {
    (match hwnd {
        Some(h) => seq![Act::RestoreForeground(h), Act::Sleep(FOCUS_WAIT_MS)],
        None => seq![],
    }) + seq![Act::SaveAndInject(text)]
}

/// What the host does when the paste of a confirmed text has failed.
pub open spec fn confirm_failed_acts(message: Seq<char>, hwnd: Option<isize>) -> Seq<Act> {
    seq![actions::text_event("injection-error"@, message), Act::RestoreClipboard] + (match hwnd {
        Some(h) => seq![Act::RestoreForeground(h)],
        None => seq![],
    }) + seq![Act::HideReview, Act::HideFloating]
}

impl Default for DeliveryController {
    fn default() -> (d: Self)
        ensures
            d.context == no_context(),
    {
        Self::new()
    }
}

/// A confirmed text is pasted last, after the focus has gone back to where it was.
pub proof fn focus_returns_before_the_paste(hwnd: Option<isize>, text: Seq<char>)
    ensures
        confirm_acts(hwnd, text).last() == Act::SaveAndInject(text),
        hwnd matches Some(h) ==> confirm_acts(hwnd, text)[0] == Act::RestoreForeground(h),
        forall|i: int|
            0 <= i < confirm_acts(hwnd, text).len() - 1 ==> !(#[trigger] confirm_acts(
                hwnd,
                text,
            )[i] is SaveAndInject),
{
}

/// A failed paste puts the clipboard back and tells the user, whichever way the text was delivered.
pub proof fn failed_pastes_restore_the_clipboard(
    message: Seq<char>,
    hide_review: bool,
    hwnd: Option<isize>,
)
    ensures
        failed_acts(message, hide_review).contains(Act::RestoreClipboard),
        failed_acts(message, hide_review).contains(
            actions::text_event("injection-error"@, message),
        ),
        confirm_failed_acts(message, hwnd).contains(Act::RestoreClipboard),
        confirm_failed_acts(message, hwnd).contains(
            actions::text_event("injection-error"@, message),
        ),
        hwnd matches Some(h) ==> confirm_failed_acts(message, hwnd).contains(
            Act::RestoreForeground(h),
        ),
{
    assert(failed_acts(message, hide_review)[1] == Act::RestoreClipboard);
    assert(failed_acts(message, hide_review)[0] == actions::text_event(
        "injection-error"@,
        message,
    ));
    assert(confirm_failed_acts(message, hwnd)[1] == Act::RestoreClipboard);
    assert(confirm_failed_acts(message, hwnd)[0] == actions::text_event(
        "injection-error"@,
        message,
    ));
    if let Some(h) = hwnd {
        assert(confirm_failed_acts(message, hwnd)[2] == Act::RestoreForeground(h));
    }
}

/// Where the string literal whose inside starts at `i` is closed: at the first quote that no
/// backslash stands before.
pub open spec fn closing_quote(t: Seq<char>, i: int) -> int
    decreases t.len() + 1 - i,
{
    if i >= t.len() || t[i] == '"' {
        i
    } else if t[i] == '\\' {
        closing_quote(t, i + 2)
    } else {
        closing_quote(t, i + 1)
    }
}

proof fn escapes_are_skipped(before: Seq<char>, c: char, after: Seq<char>)
    ensures
        closing_quote(before + json_char(c) + after, before.len() as int) == closing_quote(
            before + json_char(c) + after,
            (before + json_char(c)).len() as int,
        ),
{
    reveal_with_fuel(closing_quote, 6);
    let t = before + json_char(c) + after;
    let n = before.len() as int;
    assert forall|k: int| 0 <= k < json_char(c).len() implies t[n + k] == #[trigger] json_char(c)[k] by {
    }
    assert(t[n] == json_char(c)[0]);
    if json_char(c).len() == 6 {
        let high = c as nat / 16;
        let low = c as nat % 16;
        assert(high < 2 && low < 16);
        assert(t[n + 2] == json_char(c)[2]);
        assert(t[n + 3] == json_char(c)[3]);
        assert(t[n + 4] == json_char(c)[4]);
        assert(t[n + 5] == json_char(c)[5]);
    }
}

proof fn bodies_are_skipped(before: Seq<char>, text: Seq<char>, after: Seq<char>)
    ensures
        closing_quote(before + json_body(text) + seq!['"'] + after, before.len() as int)
            == before.len() + json_body(text).len(),
    decreases text.len(),
{
    if text.len() == 0 {
        assert((before + json_body(text) + seq!['"'] + after)[before.len() as int] == '"');
    } else {
        let head = json_char(text[0]);
        let tail = json_body(text.skip(1));
        let t = before + json_body(text) + seq!['"'] + after;
        assert(t =~= before + head + (tail + seq!['"'] + after));
        assert(t =~= (before + head) + tail + seq!['"'] + after);
        escapes_are_skipped(before, text[0], tail + seq!['"'] + after);
        bodies_are_skipped(before + head, text.skip(1), after);
    }
}

/// Whatever was dictated, it cannot leave the string literal that it is put into: the literal is
/// closed by its own last quote and by none before, and no line ends within it.
pub proof fn texts_stay_inside_their_literal(text: Seq<char>, after: Seq<char>)
    ensures
        closing_quote(json_string(text) + after, 1) == json_string(text).len() - 1,
        forall|i: int|
            0 <= i < json_string(text).len() ==> (#[trigger] json_string(text)[i]) as nat >= 0x20,
{
    bodies_are_skipped(seq!['"'], text, after);
    assert(json_string(text) + after =~= seq!['"'] + json_body(text) + seq!['"'] + after);
    bodies_hold_no_control_character(text);
    assert forall|i: int| 0 <= i < json_string(text).len() implies (
    #[trigger] json_string(text)[i]) as nat >= 0x20 by {
        if 0 < i < json_string(text).len() - 1 {
            assert(json_string(text)[i] == json_body(text)[i - 1]);
        }
    }
}

proof fn bodies_hold_no_control_character(text: Seq<char>)
    ensures
        forall|i: int|
            0 <= i < json_body(text).len() ==> (#[trigger] json_body(text)[i]) as nat >= 0x20,
    decreases text.len(),
{
    if text.len() > 0 {
        bodies_hold_no_control_character(text.skip(1));
        let head = json_char(text[0]);
        let tail = json_body(text.skip(1));
        assert forall|i: int| 0 <= i < json_body(text).len() implies (
        #[trigger] json_body(text)[i]) as nat >= 0x20 by {
            if i < head.len() {
                assert(json_body(text)[i] == head[i]);
            } else {
                assert(json_body(text)[i] == tail[i - head.len()]);
            }
        }
    }
}

/// A review that was ended leaves nothing for the next: neither a window to return to nor a
/// recording to note a text about.
pub proof fn an_ended_review_leaves_nothing(i: int)
    requires
        0 <= i < cancelled_acts(no_context().foreground_hwnd, no_context().data_saving).len(),
    ensures
        !(cancelled_acts(
            no_context().foreground_hwnd,
            no_context().data_saving,
        )[i] is RestoreForeground),
        !(cancelled_acts(
            no_context().foreground_hwnd,
            no_context().data_saving,
        )[i] is UpdateJson),
{
}

/// A text that is pasted at once is pasted as it is, where it was transcribed or refined; elsewhere
/// nothing is pasted and everything returns to rest.
pub proof fn a_text_is_pasted_where_it_was_transcribed(
    d: &mut DeliveryController,
    ps: &mut PipelineState,
    text: String,
    transcription: String,
    save_result: Option<SaveResult>,
    llm_enabled: bool,
    perf: PerfMetrics,
    t_press: u64,
    refined: bool,
    r: (Vec<Action>, Option<Injection>),
)
    requires
        call_ensures(
            DeliveryController::inject_direct,
            (d, ps, text, transcription, save_result, llm_enabled, perf, t_press, refined),
            r,
        ),
    ensures
        r.1 is Some <==> (refined && old(ps).sm@ is LLMRefining) || (!refined
            && old(ps).sm@ is Transcribing),
        r.1 is Some ==> final(ps).sm@ is Injecting && final(ps).cancel_token
            == old(ps).cancel_token && acts(r.0@) == seq![Act::SaveAndInject(text@)],
        r.1 matches Some(i) ==> i.text == text && i.perf == perf && i.t_press_for_e2e == t_press
            && (i.review_data is Some <==> save_result is Some),
        r.1 is Some && save_result is Some ==> {
            let note = r.1->0.review_data->0;
            &&& note.json_path == save_result->0.json_path
            &&& note.raw_transcription == transcription
            &&& note.llm_text is Some <==> llm_enabled
            &&& llm_enabled ==> note.llm_text->0 == text
        },
        r.1 is None ==> final(ps).sm@ is Idle && final(ps).cancel_token is None && r.0@.len() == 0,
        *final(d) == *old(d),
{
    assert(acts(r.0@).len() == r.0@.len());
}

/// After a paste, at once or because there was no review window, a failure is told and the clipboard
/// put back; a success is told, noted with the recording, and measured from the press of the key.
/// Either way the delivery is over.
pub proof fn a_paste_ends_the_delivery(
    d: &mut DeliveryController,
    ps: &mut PipelineState,
    i: Injection,
    outcome: Result<(), String>,
    injection_ms: u64,
    now: u64,
    v: Vec<Action>,
    e: &mut DeliveryController,
    qs: &mut PipelineState,
    w: Vec<Action>,
)
    requires
        old(ps).wf(),
        call_ensures(
            DeliveryController::direct_injected,
            (d, ps, i, outcome, injection_ms, now),
            v,
        ),
        old(qs).wf(),
        call_ensures(
            DeliveryController::fallback_injected,
            (e, qs, i, outcome, injection_ms, now),
            w,
        ),
        old(ps).sm@ is Injecting,
        old(qs).sm@ is Injecting,
    ensures
        final(ps).sm@ is Idle && final(ps).cancel_token is None,
        final(qs).sm@ is Idle && final(qs).cancel_token is None,
        outcome is Err ==> {
            let told = Act::Emit("injection-error"@, crate::commands::Content::Text(outcome->Err_0@));
            &&& acts(v@) == seq![told, Act::RestoreClipboard, Act::HideFloating]
            &&& acts(w@) == seq![told, Act::RestoreClipboard, Act::HideReview, Act::HideFloating]
            &&& final(ps).perf_history == old(ps).perf_history
            &&& final(qs).perf_history == old(qs).perf_history
        },
        outcome is Ok ==> {
            let m = final(ps).perf_history.entries().last();
            let done = Act::Emit("injection-complete"@, crate::commands::Content::Null);
            let metrics = Act::Emit("perf-metrics"@, crate::commands::Content::Metrics(m));
            let k = if i.review_data is Some {
                1int
            } else {
                0
            };
            &&& m.injection_ms == Some(injection_ms)
            &&& i.t_press_for_e2e <= now ==> m.end_to_end_ms == Some((now - i.t_press_for_e2e) as u64)
            &&& i.text@.len() <= usize::MAX ==> m.text_length == i.text@.len()
            &&& m.cycle_id == i.perf.cycle_id
            &&& acts(v@).len() == 3 + k && acts(w@).len() == 4 + k
            &&& acts(v@)[0] == done && acts(v@)[1] == Act::HideFloating && acts(v@).last()
                == metrics
            &&& acts(w@)[0] == done && acts(w@)[1] == Act::HideReview && acts(w@)[2]
                == Act::HideFloating && acts(w@).last() == metrics
            &&& i.review_data is Some ==> {
                let note = Act::UpdateJson(
                    i.review_data->0.json_path@,
                    i.review_data->0.raw_transcription@,
                    match i.review_data->0.llm_text {
                        Some(t) => Some(t@),
                        None => None,
                    },
                    Some(i.text@),
                );
                acts(v@)[2] == note && acts(w@)[3] == note
            }
        },
{
}

/// A text is shown for review where it was transcribed or refined: in the window that is there
/// already, or in one that is shown now. The window that had the focus is remembered, and the
/// clipboard saved.
pub proof fn a_text_is_shown_for_review(
    d: &mut DeliveryController,
    ps: &mut PipelineState,
    text: String,
    transcription: String,
    save_result: Option<SaveResult>,
    llm_enabled: bool,
    perf: PerfMetrics,
    t_press: u64,
    refined: bool,
    foreground: isize,
    r: (Vec<Action>, ReviewStep),
    json: &str,
    script: String,
)
    requires
        json@ == json_string(text@),
        call_ensures(review_script, (json,), script),
        call_ensures(
            DeliveryController::show_review,
            (
                d,
                ps,
                text,
                transcription,
                save_result,
                llm_enabled,
                perf,
                t_press,
                refined,
                foreground,
            ),
            r,
        ),
    ensures
        ({
            let can = (refined && old(ps).sm@ is LLMRefining) || (!refined
                && old(ps).sm@ is Transcribing);
            let there = old(ps).review.shown_on_press;
            &&& can ==> final(ps).sm@ is Reviewing && final(ps).review.text == Some(text)
            &&& !can ==> final(ps).sm@ is Idle && r.1 is Settled && acts(r.0@) == seq![
                Act::SaveClipboard,
                Act::RestoreClipboard,
            ] && *final(d) == *old(d)
            &&& r.1 is AwaitWindow <==> can && !there
            &&& acts(r.0@)[0] == Act::SaveClipboard
            &&& can && !there ==> acts(r.0@) == seq![Act::SaveClipboard, Act::ShowReview]
                && final(d).context.foreground_hwnd == Some(foreground)
                && final(ps).cancel_token == old(ps).cancel_token
            &&& can && there ==> acts(r.0@).len() == 3 && acts(r.0@)[1] == Act::EvalReviewJs(
                script@,
            ) && acts(r.0@)[2] == Act::EmitReviewFinalText(text@)
                && final(ps).cancel_token is None
            &&& can && there ==> {
                let kept = final(d).context;
                &&& kept.perf == Some(perf) && kept.t_press_for_e2e == Some(t_press)
                &&& old(ps).review.foreground_hwnd is Some ==> kept.foreground_hwnd
                    == old(ps).review.foreground_hwnd
                &&& kept.data_saving is Some <==> save_result is Some
                &&& save_result is Some ==> kept.data_saving->0.json_path
                    == save_result->0.json_path && kept.data_saving->0.raw_transcription
                    == transcription
            }
            &&& r.1 matches ReviewStep::AwaitWindow(i) ==> i.text == text && i.perf == perf
                && i.t_press_for_e2e == t_press && (i.review_data is Some <==> save_result is Some)
        }),
{
}

/// Where the review window is not found, the text is pasted at once; where it is, everything that
/// the end of the review needs is kept.
pub proof fn without_a_window_the_text_is_pasted(
    d: &mut DeliveryController,
    ps: &mut PipelineState,
    pending: Injection,
    found: bool,
    r: (Vec<Action>, Option<Injection>),
)
    requires
        call_ensures(DeliveryController::review_shown, (d, ps, pending, found), r),
        old(ps).sm@ is Reviewing,
    ensures
        r.1 is None <==> found,
        found ==> r.0@.len() == 0 && final(ps).sm@ is Reviewing && final(ps).cancel_token is None,
        found ==> final(d).context.data_saving == pending.review_data && final(d).context.perf
            == Some(pending.perf) && final(d).context.t_press_for_e2e == Some(
            pending.t_press_for_e2e,
        ) && final(d).context.foreground_hwnd == old(d).context.foreground_hwnd,
        !found ==> r.1 == Some(pending) && final(ps).sm@ is Injecting && acts(r.0@) == seq![
            Act::SaveAndInject(pending.text@),
        ],
{
    assert(acts(r.0@).len() == r.0@.len());
}

/// Realtime text that is in the review window already goes straight into the review.
pub proof fn realtime_text_goes_into_the_review(
    d: &mut DeliveryController,
    ps: &mut PipelineState,
    accumulated: Option<String>,
    v: Vec<Action>,
)
    requires
        call_ensures(DeliveryController::realtime_review_handoff, (d, ps, accumulated), v),
        old(ps).sm@ is Recording,
    ensures
        final(ps).sm@ is Reviewing,
        acts(v@) == seq![Act::SaveClipboard, Act::HideFloating],
        accumulated is Some ==> final(ps).review.text == accumulated,
        accumulated is None ==> final(ps).review.text == old(ps).review.text,
        old(ps).review.foreground_hwnd is Some ==> final(d).context.foreground_hwnd
            == old(ps).review.foreground_hwnd,
{
}

/// A reviewed text is confirmed as the user left it: the focus goes back to where it was, and then
/// the text is pasted. While a recording runs it is given up, and elsewhere nothing happens; both
/// are refused.
pub proof fn a_reviewed_text_is_pasted_where_the_user_came_from(
    d: &mut DeliveryController,
    ps: &mut PipelineState,
    text: String,
    r: (Vec<Action>, Result<Confirmation, CommandError>),
)
    requires
        old(ps).wf(),
        call_ensures(DeliveryController::confirm_review, (d, ps, text), r),
    ensures
        r.1 is Ok <==> old(ps).sm@ is Reviewing,
        r.1 is Err ==> r.1->Err_0.code@ == "STATE"@,
        r.1 is Ok ==> {
            let c = r.1->Ok_0;
            let kept = old(d).context;
            &&& c.text == text
            &&& c.context.data_saving == kept.data_saving && c.context.foreground_hwnd
                == kept.foreground_hwnd && c.context.t_press_for_e2e == kept.t_press_for_e2e
            &&& kept.perf is Some ==> c.context.perf == kept.perf->0
            &&& kept.foreground_hwnd is Some ==> acts(r.0@) == seq![
                Act::RestoreForeground(kept.foreground_hwnd->0),
                Act::Sleep(100),
                Act::SaveAndInject(text@),
            ]
            &&& kept.foreground_hwnd is None ==> acts(r.0@) == seq![Act::SaveAndInject(text@)]
            &&& final(ps).sm@ is Reviewing
        },
        old(ps).sm@ is Recording || old(ps).sm@ is Transcribing ==> final(ps).sm@ is Idle
            && final(ps).realtime is None && !final(ps).review.shown_on_press && acts(r.0@)
            == (if old(ps).realtime is Some {
            seq![Act::StopCapture, Act::StopRealtime, Act::HideFloating, Act::HideReview]
        } else {
            seq![Act::StopCapture, Act::HideFloating, Act::HideReview]
        }),
        old(ps).sm@ is Idle || old(ps).sm@ is LLMRefining || old(ps).sm@ is Injecting
            || old(ps).sm@ is RecordOnly ==> r.0@.len() == 0 && final(ps).sm@ == old(ps).sm@,
        final(d).context.foreground_hwnd is None && final(d).context.data_saving is None
            && final(d).context.perf is None,
{
    assert(acts(r.0@).len() == r.0@.len());
    if old(ps).sm@ is Recording || old(ps).sm@ is Transcribing {
        assert(acts(r.0@) =~= (if old(ps).realtime is Some {
            seq![Act::StopCapture, Act::StopRealtime, Act::HideFloating, Act::HideReview]
        } else {
            seq![Act::StopCapture, Act::HideFloating, Act::HideReview]
        }));
    }
    if r.1 is Ok {
        let kept = old(d).context;
        if kept.foreground_hwnd is Some {
            assert(acts(r.0@) =~= seq![
                Act::RestoreForeground(kept.foreground_hwnd->0),
                Act::Sleep(100),
                Act::SaveAndInject(text@),
            ]);
        } else {
            assert(acts(r.0@) =~= seq![Act::SaveAndInject(text@)]);
        }
    }
}

/// After the paste of a reviewed text a failure is told, and the clipboard and the focus are put
/// back; a success ends the cycle, with the text as the user left it noted as the final one.
pub proof fn a_confirmed_paste_ends_the_cycle(
    d: &mut DeliveryController,
    ps: &mut PipelineState,
    c: Confirmation,
    outcome: Result<(), String>,
    injection_ms: u64,
    now: u64,
    v: Vec<Action>,
)
    requires
        old(ps).wf(),
        call_ensures(
            DeliveryController::confirm_injected,
            (d, ps, c, outcome, injection_ms, now),
            v,
        ),
        old(ps).sm@ is Reviewing,
    ensures
        final(ps).sm@ is Idle,
        outcome is Err ==> {
            let told = Act::Emit("injection-error"@, crate::commands::Content::Text(outcome->Err_0@));
            &&& final(ps).perf_history == old(ps).perf_history
            &&& c.context.foreground_hwnd is None ==> acts(v@) == seq![
                told,
                Act::RestoreClipboard,
                Act::HideReview,
                Act::HideFloating,
            ]
            &&& c.context.foreground_hwnd is Some ==> acts(v@) == seq![
                told,
                Act::RestoreClipboard,
                Act::RestoreForeground(c.context.foreground_hwnd->0),
                Act::HideReview,
                Act::HideFloating,
            ]
        },
        outcome is Ok ==> {
            let m = final(ps).perf_history.entries().last();
            let data = c.context.data_saving;
            &&& m.injection_ms == Some(injection_ms)
            &&& c.context.t_press_for_e2e is Some && c.context.t_press_for_e2e->0 <= now
                ==> m.end_to_end_ms == Some((now - c.context.t_press_for_e2e->0) as u64)
            &&& c.text@.len() <= usize::MAX ==> m.text_length == c.text@.len()
            &&& acts(v@)[0] == Act::Emit("injection-complete"@, crate::commands::Content::Null)
            &&& acts(v@)[1] == Act::HideReview && acts(v@)[2] == Act::HideFloating
            &&& acts(v@).last() == Act::Emit(
                "perf-metrics"@,
                crate::commands::Content::Metrics(m),
            )
            &&& data is None ==> acts(v@).len() == 4
            &&& data is Some ==> acts(v@).len() == 5 && acts(v@)[3] == Act::UpdateJson(
                data->0.json_path@,
                data->0.raw_transcription@,
                match data->0.llm_text {
                    Some(t) => Some(t@),
                    None => None,
                },
                Some(c.text@),
            )
        },
{
    if outcome is Err {
        let told = Act::Emit("injection-error"@, crate::commands::Content::Text(outcome->Err_0@));
        if c.context.foreground_hwnd is None {
            assert(acts(v@) =~= seq![
                told,
                Act::RestoreClipboard,
                Act::HideReview,
                Act::HideFloating,
            ]);
        } else {
            assert(acts(v@) =~= seq![
                told,
                Act::RestoreClipboard,
                Act::RestoreForeground(c.context.foreground_hwnd->0),
                Act::HideReview,
                Act::HideFloating,
            ]);
        }
    }
}

/// A review that is cancelled puts the clipboard and the focus back, pastes nothing, and notes the
/// recording without a final text. A recording that runs is given up with it; elsewhere the request
/// is refused and nothing happens.
pub proof fn a_cancelled_review_pastes_nothing(
    d: &mut DeliveryController,
    ps: &mut PipelineState,
    r: (Vec<Action>, Result<(), CommandError>),
    i: int,
)
    requires
        old(ps).wf(),
        call_ensures(DeliveryController::cancel_review, (d, ps), r),
    ensures
        r.1 is Ok <==> old(ps).sm@ is Reviewing || old(ps).sm@ is Recording
            || old(ps).sm@ is Transcribing,
        r.1 is Err ==> r.0@.len() == 0 && final(ps).sm@ == old(ps).sm@ && r.1->Err_0.code@
            == "STATE"@,
        r.1 is Ok ==> final(ps).sm@ is Idle && !final(ps).review.shown_on_press,
        r.1 is Ok && !(old(ps).sm@ is Reviewing) ==> final(ps).realtime is None && acts(r.0@)[0]
            == Act::StopCapture,
        r.1 is Ok ==> {
            let kept = old(d).context;
            let told = acts(r.0@);
            &&& told.contains(Act::RestoreClipboardIfSaved)
            &&& told.contains(Act::HideFloating) && told.contains(Act::HideReview)
            &&& kept.foreground_hwnd is Some ==> told.contains(
                Act::RestoreForeground(kept.foreground_hwnd->0),
            )
            &&& kept.data_saving is Some ==> told.last() == Act::UpdateJson(
                kept.data_saving->0.json_path@,
                kept.data_saving->0.raw_transcription@,
                match kept.data_saving->0.llm_text {
                    Some(t) => Some(t@),
                    None => None,
                },
                None,
            )
            &&& 0 <= i < told.len() ==> !(told[i] is SaveAndInject) && !(told[i] is InjectText)
        },
        final(d).context.foreground_hwnd is None && final(d).context.data_saving is None,
{
    assert(acts(r.0@).len() == r.0@.len());
    if r.1 is Ok {
        let kept = old(d).context;
        let told = acts(r.0@);
        let ended = cancelled_acts(kept.foreground_hwnd, kept.data_saving);
        let s = (told.len() - ended.len()) as int;
        assert forall|k: int| 0 <= k < ended.len() implies told[s + k] == #[trigger] ended[k] by {}
        assert(ended[0] == Act::RestoreClipboardIfSaved);
        assert(told[s] == Act::RestoreClipboardIfSaved);
        let f = if kept.foreground_hwnd is Some {
            1int
        } else {
            0
        };
        if kept.foreground_hwnd is Some {
            assert(ended[1] == Act::RestoreForeground(kept.foreground_hwnd->0));
            assert(told[s + 1] == Act::RestoreForeground(kept.foreground_hwnd->0));
        }
        assert(ended[1 + f] == Act::HideFloating && ended[2 + f] == Act::HideReview);
        assert(told[s + 1 + f] == Act::HideFloating && told[s + 2 + f] == Act::HideReview);
        if 0 <= i < told.len() && i >= s {
            assert(told[i] == ended[i - s]);
        }
    }
}

/// The time between two moments is their difference, and nothing where the second comes first.
pub proof fn time_is_the_difference(from: u64, to: u64, ms: u64)
    requires
        call_ensures(elapsed, (from, to), ms),
    ensures
        from <= to ==> ms == to - from,
        from > to ==> ms == 0,
{
}

/// The script puts the text, as a literal, into the field of the review window.
pub proof fn the_script_sets_the_text(json: &str, s: String)
    requires
        call_ensures(review_script, (json,), s),
    ensures
        text::begins_with(
            s@,
            "(function(){var t=document.getElementById('review-text');if(t){t.value="@ + json@ + ";"@,
        ),
{
    reveal_strlit(";");
    reveal_strlit(
        ";t.selectionStart=t.selectionEnd=t.value.length;t.scrollTop=t.scrollHeight;}var p=document.getElementById('preview');if(p){p.textContent='';p.classList.remove('visible');}var b=document.getElementById('btn-confirm');if(b){b.disabled=false;}})()",
    );
    let head = "(function(){var t=document.getElementById('review-text');if(t){t.value="@ + json@
        + ";"@;
    assert(s@.take(head.len() as int) =~= head);
}

/// A window that shows the text already gets it as a script and as an event.
pub proof fn a_visible_window_gets_the_text(
    v: &mut Vec<Action>,
    text: &str,
    done: (),
    json: &str,
    script: String,
)
    requires
        call_ensures(push_to_review, (v, text), done),
        json@ == json_string(text@),
        call_ensures(review_script, (json,), script),
    ensures
        acts(final(v)@) == acts(old(v)@).push(Act::EvalReviewJs(script@)).push(
            Act::EmitReviewFinalText(text@),
        ),
{
    assert(acts(final(v)@) =~= acts(old(v)@).push(Act::EvalReviewJs(script@)).push(
        Act::EmitReviewFinalText(text@),
    ));
}

/// What is kept of a delivery is taken out once; a cycle number is used up for it.
pub proof fn what_is_kept_is_taken_out_once(
    d: &mut DeliveryController,
    ps: &mut PipelineState,
    t: TakenContext,
    e: &mut DeliveryController,
    qs: &mut PipelineState,
    u: TakenContext,
)
    requires
        call_ensures(DeliveryController::take_context, (d, ps), t),
        *old(e) == *final(d),
        call_ensures(DeliveryController::take_context, (e, qs), u),
    ensures
        t.foreground_hwnd == old(d).context.foreground_hwnd && t.data_saving
            == old(d).context.data_saving && t.t_press_for_e2e == old(d).context.t_press_for_e2e,
        old(d).context.perf is Some ==> t.perf == old(d).context.perf->0,
        old(d).context.perf is None ==> t.perf.cycle_id == old(ps).perf_history.next_id(),
        u.foreground_hwnd is None && u.data_saving is None && u.t_press_for_e2e is None,
        final(ps).sm == old(ps).sm && final(ps).perf_history.entries()
            == old(ps).perf_history.entries(),
{
}

/// What is noted of a delivered text belongs to the recording that was saved: the transcription as it
/// was, and the delivered text where it was corrected. The times of a paste go with the text's length.
pub proof fn what_is_noted_of_a_delivery(
    save_result: Option<SaveResult>,
    transcription: String,
    text: String,
    llm_enabled: bool,
    d: Option<ReviewData>,
    m: PerfMetrics,
    injection_ms: u64,
    end_to_end_ms: Option<u64>,
    pasted: &str,
    r: PerfMetrics,
)
    requires
        call_ensures(review_data, (save_result, transcription, &text, llm_enabled), d),
        call_ensures(note_paste, (m, injection_ms, end_to_end_ms, pasted), r),
    ensures
        d is Some <==> save_result is Some,
        d is Some ==> d->0.json_path == save_result->0.json_path && d->0.raw_transcription
            == transcription && d->0.llm_text == (if llm_enabled {
            Some(text)
        } else {
            None
        }),
        r.injection_ms == Some(injection_ms) && r.end_to_end_ms == end_to_end_ms && r.cycle_id
            == m.cycle_id,
        pasted@.len() <= usize::MAX ==> r.text_length == pasted@.len(),
{
}

} // verus!
