//! Pasting a text and ending the cycle.

use crate::commands::actions;
use crate::commands::actions::{acts, emit, emit_metrics, emit_text, nothing, queue, Act, Action};
use crate::commands::delivery_controller as delivery;
use crate::commands::delivery_controller::{elapsed, note_paste};
use crate::commands::pipeline_state::PipelineState;
use crate::data_saving::SaveResult;
use crate::perf::PerfMetrics;
use crate::state;
use crate::state::Verb;
use vstd::prelude::*;

verus! {

/// Context of a paste.
pub struct InjectionContext {
    pub text: String,
    pub transcription: String,
    pub save_result: Option<SaveResult>,
    pub llm_enabled: bool,
    pub perf: PerfMetrics,
    /// When the hotkey was pressed, on the clock of the host in milliseconds.
    pub t_press_for_e2e: u64,
}

/// What the host does to paste the text. The state machine has entered Injecting.
pub fn inject_text(ctx: &InjectionContext) -> (v: Vec<Action>)
    ensures
        acts(v@) == seq![Act::SaveAndInject(ctx.text@)],
{
    let mut v = nothing();
    queue(&mut v, Action::SaveAndInject(ctx.text.clone()));
    assert(acts(v@) =~= seq![Act::SaveAndInject(ctx.text@)]);
    v
}

/// The note about the saved recording of a pasted text.
pub open spec fn paste_note(ctx: InjectionContext) -> Seq<Act> {
    match ctx.save_result {
        Some(sr) => seq![
            Act::UpdateJson(
                sr.json_path@,
                ctx.transcription@,
                if ctx.llm_enabled {
                    Some(ctx.text@)
                } else {
                    None
                },
                Some(ctx.text@),
            ),
        ],
        None => seq![],
    }
}

/// What the host does after a paste.
pub open spec fn pasted_acts(
    ctx: InjectionContext,
    outcome: Result<(), String>,
    m: PerfMetrics,
) -> Seq<Act> {
    (match outcome {
        Ok(_) => seq![],
        Err(e) => seq![actions::text_event("injection-error"@, e@)],
    }) + seq![actions::event("injection-complete"@), Act::HideFloating] + paste_note(ctx) + seq![
        actions::metrics_event(m),
    ]
}

/// Go on after the paste: a failure is reported, and the cycle ends in any case. The cancellation
/// token of the delivery is taken back. Hands out the metrics of the cycle.
pub fn text_injected(
    ps: &mut PipelineState,
    ctx: InjectionContext,
    outcome: Result<(), String>,
    injection_ms: u64,
    now: u64,
) -> (r: (Vec<Action>, PerfMetrics))
    requires
        old(ps).wf(),
    ensures
        final(ps).wf(),
        r.1 == delivery::timed(
            ctx.perf,
            injection_ms,
            Some(delivery::span(ctx.t_press_for_e2e, now)),
            ctx.text@,
        ),
        *final(ps) == (PipelineState {
            sm: final(ps).sm,
            perf_history: final(ps).perf_history,
            cancel_token: None,
            ..*old(ps)
        }),
        final(ps).sm@ == state::after(old(ps).sm@, Verb::FinishInjecting),
        delivery::cycle_recorded(old(ps).perf_history, final(ps).perf_history, r.1),
        acts(r.0@) == pasted_acts(ctx, outcome, r.1),
{
    let ghost given = ctx;
    let ghost happened = outcome;
    let mut v = nothing();
    if let Err(e) = outcome {
        emit_text(&mut v, "injection-error", e.as_str());
    }
    let e2e = elapsed(ctx.t_press_for_e2e, now);
    let m = note_paste(ctx.perf, injection_ms, Some(e2e), ctx.text.as_str());
    ps.sm_finish_injecting();
    ps.take_cancel_token();
    emit(&mut v, "injection-complete");
    queue(&mut v, Action::HideFloating);
    if let Some(sr) = ctx.save_result {
        let llm_text = if ctx.llm_enabled {
            Some(ctx.text.clone())
        } else {
            None
        };
        queue(&mut v, Action::UpdateJson(sr.json_path, ctx.transcription, llm_text, Some(ctx.text)));
    }
    ps.perf_history.record(m);
    emit_metrics(&mut v, m);
    assert(acts(v@) =~= pasted_acts(given, happened, m));
    (v, m)
}

/// The text is pasted as it is. After that the cycle ends, whatever came of the paste: the user is
/// told of a failure, the recording gets its texts noted, and the metrics are told and kept.
pub proof fn a_paste_ends_the_cycle(
    ctx: InjectionContext,
    paste: Vec<Action>,
    ps: &mut PipelineState,
    outcome: Result<(), String>,
    injection_ms: u64,
    now: u64,
    r: (Vec<Action>, PerfMetrics),
)
    requires
        call_ensures(inject_text, (&ctx,), paste),
        old(ps).wf(),
        call_ensures(text_injected, (ps, ctx, outcome, injection_ms, now), r),
    ensures
        acts(paste@) == seq![Act::SaveAndInject(ctx.text@)],
        old(ps).sm@ is Injecting ==> final(ps).sm@ is Idle,
        !(old(ps).sm@ is Injecting) ==> final(ps).sm@ == old(ps).sm@,
        final(ps).cancel_token is None,
        final(ps).perf_history.entries().len() > 0 && final(ps).perf_history.entries().last()
            == r.1,
        r.1.injection_ms == Some(injection_ms),
        ctx.t_press_for_e2e <= now ==> r.1.end_to_end_ms == Some((now - ctx.t_press_for_e2e) as u64),
        ctx.text@.len() <= usize::MAX ==> r.1.text_length == ctx.text@.len(),
        r.1.cycle_id == ctx.perf.cycle_id && r.1.transcription_ms == ctx.perf.transcription_ms,
        ({
            let told = acts(r.0@);
            let n = told.len() as int;
            let k = if outcome is Err {
                1int
            } else {
                0
            };
            let s = if ctx.save_result is Some {
                1int
            } else {
                0
            };
            &&& n == k + 2 + s + 1
            &&& outcome is Err ==> told[0] == Act::Emit(
                "injection-error"@,
                crate::commands::Content::Text(outcome->Err_0@),
            )
            &&& told[k] == Act::Emit("injection-complete"@, crate::commands::Content::Null)
            &&& told[k + 1] == Act::HideFloating
            &&& ctx.save_result is Some ==> told[k + 2] == Act::UpdateJson(
                ctx.save_result->0.json_path@,
                ctx.transcription@,
                if ctx.llm_enabled {
                    Some(ctx.text@)
                } else {
                    None
                },
                Some(ctx.text@),
            )
            &&& told[n - 1] == Act::Emit(
                "perf-metrics"@,
                crate::commands::Content::Metrics(r.1),
            )
        }),
{
}

} // verus!
