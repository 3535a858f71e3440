//! A dictation from the press of the hotkey to the delivery of the text.
//!
//! Windows, audio, the speech engine and the language model are the host's. Each method handles one
//! event, moves the shared state and says what the host has to do next.

use crate::commands::actions;
use crate::commands::actions::{acts, emit, emit_text, nothing, queue, queue_all, Act, Action};
use crate::commands::delivery_controller as delivery;
use crate::commands::delivery_controller::{elapsed, push_to_review, review_data};
use crate::commands::pipeline_state;
use crate::commands::pipeline_state::{CancelToken, PipelineState};
use crate::commands::review::{PendingReview, ReviewData};
use crate::commands::text_injector::{inject_text, InjectionContext};
use crate::config::schema;
use crate::config::{AppConfig, Language, PipelineMode};
use crate::data_saving;
use crate::data_saving::{SaveConfig, SaveResult};
use crate::error::AppError;
use crate::llm::LLMClient;
use crate::perf;
use crate::perf::PerfMetrics;
use crate::realtime::{RealtimeTranscriber, WINDOW_SECS};
use crate::state;
use crate::state::{StateTag, Verb};
use crate::text;
use vstd::prelude::*;

verus! {

/// The sample rate that is assumed where the device does not tell.
pub const DEFAULT_SAMPLE_RATE: u32 = 48000;

/// Snapshot of the configuration for one session: settings changed meanwhile do not affect it. The
/// API key is not part of it; it is read anew for each correction.
pub struct SessionPolicy {
    pub mode: PipelineMode,
    pub llm_enabled: bool,
    pub language: Language,
    pub llm_api_url: String,
    pub llm_api_model: String,
    pub save: SaveConfig,
}

/// The snapshot of a configuration.
pub open spec fn policy_of(c: AppConfig) -> SessionPolicy {
    SessionPolicy {
        mode: schema::mode_of(c.realtime_transcription, c.review_before_paste),
        llm_enabled: c.llm_enabled,
        language: c.language,
        llm_api_url: c.llm_api_url,
        llm_api_model: c.llm_model,
        save: data_saving::save_config_of(c),
    }
}

impl SessionPolicy {
    /// Take the snapshot of a configuration.
    pub fn from_config(c: &AppConfig) -> (p: Self)
        ensures
            p == policy_of(*c),
    {
        SessionPolicy {
            mode: c.pipeline_mode(),
            llm_enabled: c.llm_enabled,
            language: c.language,
            llm_api_url: c.llm_api_url.clone(),
            llm_api_model: c.llm_model.clone(),
            save: SaveConfig::from_app_config(c),
        }
    }
}

/// Configuration fields that are left out of the snapshot on purpose.
pub const KNOWN_UNSNAPSHOTED_FIELDS: [&'static str; 4] = [
    "llm_api_key",
    "autostart",
    "review_before_paste",
    "hotkey",
];

/// How a recording is delivered.
#[derive(Debug, Clone, Copy, PartialEq, Eq, Structural)]
pub enum ReleaseActionKind {
    /// The text is in the review window already.
    Done,
    /// The realtime text is pasted.
    DeliverFast,
    /// The recording is transcribed.
    DeliverFull,
}

/// How a recording is delivered, given the mode and whether realtime text was gathered: with
/// realtime text the modes part, without it the recording is transcribed.
pub open spec fn release_kind(mode: PipelineMode, gathered: bool) -> ReleaseActionKind {
    match (mode, gathered) {
        (PipelineMode::RealtimeReview, true) => ReleaseActionKind::Done,
        (PipelineMode::RealtimeDirect, true) => ReleaseActionKind::DeliverFast,
        _ => ReleaseActionKind::DeliverFull,
    }
}

/// Decide how a recording is delivered.
pub fn decide_release(mode: PipelineMode, accumulated: Option<&str>) -> (k: ReleaseActionKind)
    ensures
        k == release_kind(mode, accumulated is Some),
{
    match (mode, accumulated) {
        (PipelineMode::ClassicDirect, _) | (PipelineMode::ClassicReview, _) => {
            ReleaseActionKind::DeliverFull
        },
        (PipelineMode::RealtimeReview, Some(_)) => ReleaseActionKind::Done,
        (PipelineMode::RealtimeDirect, Some(_)) => ReleaseActionKind::DeliverFast,
        (PipelineMode::RealtimeDirect, None) | (PipelineMode::RealtimeReview, None) => {
            ReleaseActionKind::DeliverFull
        },
    }
}

/// Whether a character is a CJK unified ideograph.
pub open spec fn ideograph(c: char) -> bool {
    0x4E00 <= c as u32 <= 0x9FFF
}

/// Whether the comma or period at a position stands in Chinese text: behind an ideograph, and
/// before another one or at the end.
pub open spec fn in_chinese(s: Seq<char>, i: int) -> bool {
    &&& s[i] == ',' || s[i] == '.'
    &&& i > 0 && ideograph(s[i - 1])
    &&& i + 1 == s.len() || ideograph(s[i + 1])
}

/// The character at a position, full-width where it is punctuation of Chinese text.
pub open spec fn normal_char(s: Seq<char>, i: int) -> char {
    if in_chinese(s, i) {
        if s[i] == ',' {
            '，'
        } else {
            '。'
        }
    } else {
        s[i]
    }
}

/// The text with full-width punctuation in Chinese text.
pub open spec fn normalized(s: Seq<char>) -> Seq<char> {
    Seq::new(s.len(), |i: int| normal_char(s, i))
}

fn is_cjk(ch: char) -> (r: bool)
    ensures
        r == ideograph(ch),
{
    let code: u32 = ch as u32;
    0x4E00 <= code && code <= 0x9FFF
}

/// Replace commas and periods by their full-width forms where they stand in Chinese text.
pub fn normalize_chinese_punctuation(text: &str) -> (r: String)
    ensures
        r@ == normalized(text@),
{
    let chars = text::chars_of(text);
    let mut result = String::new();
    let mut i: usize = 0;
    while i < chars.len()
        invariant
            i <= chars.len(),
            chars@ == text@,
            result@ == normalized(text@).take(i as int),
        decreases chars.len() - i,
    {
        let ch = chars[i];
        let mut out = ch;
        if ch == ',' || ch == '.' {
            let prev_cjk = i > 0 && is_cjk(chars[i - 1]);
            let next_cjk = i + 1 < chars.len() && is_cjk(chars[i + 1]);
            let at_end = i + 1 == chars.len();
            if prev_cjk && (next_cjk || at_end) {
                out = if ch == ',' {
                    '，'
                } else {
                    '。'
                };
            }
        }
        assert(out == normal_char(text@, i as int));
        result.push(out);
        assert(result@ =~= normalized(text@).take(i + 1));
        i = i + 1;
    }
    assert(normalized(text@).take(text@.len() as int) =~= normalized(text@));
    result
}

/// The final form of a text in a language.
pub open spec fn final_form(text: Seq<char>, language: Language) -> Seq<char> {
    if language == Language::Zh {
        normalized(text)
    } else {
        text
    }
}

/// Give a text its final form.
pub fn finalize_text(text: String, language: Language) -> (r: String)
    ensures
        r@ == final_form(text@, language),
{
    if language == Language::Zh {
        normalize_chinese_punctuation(text.as_str())
    } else {
        text
    }
}

/// What hiding everything asks of the host.
pub open spec fn idle_acts(shown_on_press: bool) -> Seq<Act> {
    if shown_on_press {
        seq![Act::HideFloating, Act::HideReview]
    } else {
        seq![Act::HideFloating]
    }
}

/// The state at rest after a reset, the review window hidden.
pub open spec fn at_rest(before: PipelineState, after: PipelineState) -> bool {
    &&& after == (PipelineState {
        sm: after.sm,
        review: PendingReview { shown_on_press: false, ..before.review },
        ..before
    })
    &&& after.sm@ == StateTag::Idle
}

/// The state once the cancellation token of a delivery has been taken back.
pub open spec fn without_token(ps: PipelineState) -> PipelineState {
    PipelineState { cancel_token: None, ..ps }
}

/// Reset the state machine and hide the windows of the session.
pub fn reset_to_idle(ps: &mut PipelineState) -> (v: Vec<Action>)
    ensures
        at_rest(*old(ps), *final(ps)),
        acts(v@) == idle_acts(old(ps).review.shown_on_press),
{
    ps.sm_reset();
    let mut v = nothing();
    queue(&mut v, Action::HideFloating);
    if ps.review.shown_on_press {
        queue(&mut v, Action::HideReview);
        ps.review.shown_on_press = false;
    }
    assert(acts(v@) =~= idle_acts(old(ps).review.shown_on_press));
    v
}

/// Prepare a correction: the state machine moves on, and the client is renewed unless the one of the
/// last correction still matches the snapshot and the API key of the current configuration.
pub fn resolve_llm_text(ps: &mut PipelineState, policy: &SessionPolicy) -> (v: Vec<Action>)
    ensures
        acts(v@) == seq![actions::event("llm-refining"@)],
        refining(*old(ps), *final(ps), *policy),
{
    ps.sm_start_llm_refining();
    let mut v = nothing();
    emit(&mut v, "llm-refining");
    let config = ps.config_cache.read_cached();
    let reusable = match &ps.cached_llm {
        Some(c) => c.matches_config(
            policy.llm_api_url.as_str(),
            config.llm_api_key.as_str(),
            policy.llm_api_model.as_str(),
        ),
        None => false,
    };
    if !reusable {
        ps.cached_llm = Some(
            LLMClient::new(
                policy.llm_api_url.clone(),
                config.llm_api_key.clone(),
                policy.llm_api_model.clone(),
            ),
        );
    }
    assert(acts(v@) =~= seq![actions::event("llm-refining"@)]);
    v
}

/// The state before and after a correction was prepared.
pub open spec fn refining(
    before: PipelineState,
    after: PipelineState,
    policy: SessionPolicy,
) -> bool {
    let key = before.config_cache@.llm_api_key;
    &&& after == (PipelineState { sm: after.sm, cached_llm: after.cached_llm, ..before })
    &&& after.sm@ == state::after(before.sm@, Verb::StartLlmRefining)
    &&& after.cached_llm == (match before.cached_llm {
        Some(c) if c.is_for(policy.llm_api_url@, key@, policy.llm_api_model@) => Some(c),
        _ => Some(
            LLMClient {
                api_url: policy.llm_api_url,
                api_key: key,
                model: policy.llm_api_model,
            },
        ),
    })
}

/// The text after a correction was tried: a failure leaves the transcription.
pub open spec fn corrected_text(reply: Result<String, AppError>, transcription: Seq<char>) -> Seq<
    char,
> {
    match reply {
        Ok(t) => t@,
        Err(_) => transcription,
    }
}

/// The event that reports what came of a correction.
pub open spec fn correction_event(reply: Result<String, AppError>) -> Act {
    match reply {
        Ok(t) => actions::text_event("llm-complete"@, t@),
        Err(e) => actions::text_event("llm-error"@, e.prefix() + e.detail()),
    }
}

/// A press of the hotkey whose capture is being started.
pub struct Press {
    pub cycle_id: u64,
    pub t_press: u64,
    pub mode: PipelineMode,
}

/// A released recording whose audio is still to be taken.
pub struct PendingRelease {
    /// The realtime text that is to be pasted; the recording is transcribed where there is none.
    pub accumulated: Option<String>,
    pub native_rate: u32,
    pub perf: PerfMetrics,
    pub t_release: u64,
    pub t_press_for_e2e: u64,
    pub policy: SessionPolicy,
}

/// What follows a release.
pub enum ReleaseAction {
    /// The release has been handled.
    Done,
    /// The audio is needed.
    TakeAudio(PendingRelease),
}

/// A dictation on its way from the recording to the delivered text.
pub struct PipelineJob {
    pub transcription: String,
    pub save_result: Option<SaveResult>,
    /// Whether the text is reviewed before it is pasted.
    pub review: bool,
    pub perf: PerfMetrics,
    pub t_press_for_e2e: u64,
    pub policy: SessionPolicy,
}

/// What follows once the audio has been taken.
pub enum Delivery {
    /// Nothing is delivered.
    Nothing,
    /// The realtime text is delivered.
    Fast(PipelineJob),
    /// The recording is transcribed and delivered.
    Full(PipelineJob),
}

/// What follows once there is a transcription.
pub enum PipelineNext {
    /// The session is over.
    Idle,
    /// The language model is asked for a correction.
    Correct(PipelineJob),
    /// The text is delivered.
    Deliver(PipelineJob, String),
}

/// A review whose window is being shown.
pub struct PendingShow {
    pub final_text: String,
    pub review_data: Option<ReviewData>,
}

/// What follows once a text has been handed over for delivery.
pub enum DeliverStep {
    /// Nothing is awaited.
    Settled,
    /// The host says whether the review window was found.
    AwaitWindow(PendingShow),
    /// The host says what came of the paste.
    AwaitPaste(InjectionContext),
}

/// The event for a press while the model is loading.
pub open spec fn not_ready_event() -> Act {
    actions::text_event("speech-error"@, "模型加载中，请稍候..."@)
}

/// What the host does to begin a recording.
pub open spec fn press_acts(realtime: bool, mode: PipelineMode) -> Seq<Act> {
    (if realtime {
        seq![Act::StopRealtime]
    } else {
        seq![]
    }) + (if mode == PipelineMode::RealtimeReview {
        seq![]
    } else {
        seq![Act::ShowFloating]
    }) + seq![actions::event("recording-start"@), Act::ClearRing, Act::StartCapture]
}

/// The sample rate at which realtime transcription is to be started, if it is to be started.
pub open spec fn realtime_rate(mode: PipelineMode, sample_rate: Option<u32>) -> Option<u32> {
    if mode == PipelineMode::RealtimeDirect || mode == PipelineMode::RealtimeReview {
        sample_rate
    } else {
        None
    }
}

/// What the host does once capture has begun.
pub open spec fn capture_acts(mode: PipelineMode, sample_rate: Option<u32>) -> Seq<Act> {
    (match realtime_rate(mode, sample_rate) {
        Some(rate) => seq![Act::StartRealtime(rate)],
        None => seq![],
    }) + (if mode == PipelineMode::RealtimeReview {
        seq![Act::ShowReview]
    } else {
        seq![]
    })
}

/// When the hotkey was pressed that is released now; a press that is not known counts as made at
/// the release.
pub open spec fn press_time(pressed_at: Option<u64>, t_release: u64) -> u64 {
    match pressed_at {
        Some(t) if t <= t_release => t,
        _ => t_release,
    }
}

/// The metrics at a release: those of the press, or new ones, with the time that the hotkey was
/// held.
pub open spec fn release_metrics(
    slot: Option<PerfMetrics>,
    next_id: u64,
    t_press: u64,
    t_release: u64,
) -> PerfMetrics {
    PerfMetrics {
        audio_duration_ms: Some(delivery::span(t_press, t_release)),
        ..match slot {
            Some(m) => m,
            None => perf::fresh_metrics(next_id),
        }
    }
}

/// The metrics once the audio has been taken.
pub open spec fn audio_metrics(
    m: PerfMetrics,
    samples: usize,
    rate: u32,
    latency_ms: u64,
) -> PerfMetrics {
    PerfMetrics {
        audio_samples: samples,
        audio_sample_rate: rate,
        release_latency_ms: Some(latency_ms),
        ..m
    }
}

/// The metrics once the recording has been transcribed. A time that is noted already stays.
pub open spec fn transcribed_metrics(
    m: PerfMetrics,
    transcription_ms: u64,
    llm_enabled: bool,
) -> PerfMetrics {
    PerfMetrics {
        transcription_ms: match m.transcription_ms {
            Some(ms) => Some(ms),
            None => Some(transcription_ms),
        },
        llm_enabled,
        ..m
    }
}

/// The session of the hotkey.
pub struct RecordingSession {
    pub ps: PipelineState,
    /// The metrics of the press, for the release.
    pub perf_slot: Option<PerfMetrics>,
    /// When the hotkey was pressed, while a recording is on.
    pub pressed_at: Option<u64>,
    /// The press whose capture is being started.
    pub press: Option<Press>,
}

impl RecordingSession {
    pub fn new(ps: PipelineState) -> (s: Self)
        ensures
            s == (RecordingSession { ps, perf_slot: None, pressed_at: None, press: None }),
    {
        RecordingSession { ps, perf_slot: None, pressed_at: None, press: None }
    }

    /// The hotkey is pressed. While the machine is busy nothing happens; while the engine is not
    /// ready the user is told so; otherwise a recording begins, and
    /// [`RecordingSession::on_capture_started`] goes on.
    pub fn on_press(&mut self, t_press: u64, engine_ready: bool) -> (v: Vec<Action>)
        ensures
            final(self).perf_slot == old(self).perf_slot,
            final(self).pressed_at == old(self).pressed_at,
            delivery::id_taken(old(self).ps.perf_history, final(self).ps.perf_history),
            old(self).ps.sm@ != StateTag::Idle ==> {
                &&& final(self).ps == (PipelineState {
                    sm: final(self).ps.sm,
                    perf_history: final(self).ps.perf_history,
                    ..old(self).ps
                })
                &&& final(self).ps.sm@ == old(self).ps.sm@
                &&& final(self).press == old(self).press
                &&& acts(v@) == Seq::<Act>::empty()
            },
            old(self).ps.sm@ == StateTag::Idle && !engine_ready ==> {
                &&& final(self).ps == (PipelineState {
                    sm: final(self).ps.sm,
                    perf_history: final(self).ps.perf_history,
                    review: PendingReview { shown_on_press: false, ..old(self).ps.review },
                    ..old(self).ps
                })
                &&& final(self).ps.sm@ == StateTag::Idle
                &&& final(self).press == old(self).press
                &&& acts(v@) == idle_acts(old(self).ps.review.shown_on_press).push(
                    not_ready_event(),
                )
            },
            old(self).ps.sm@ == StateTag::Idle && engine_ready ==> {
                let mode = policy_of(old(self).ps.config_cache@).mode;
                &&& final(self).ps == (PipelineState {
                    sm: final(self).ps.sm,
                    perf_history: final(self).ps.perf_history,
                    review: PendingReview { shown_on_press: false, ..old(self).ps.review },
                    realtime: None,
                    ..old(self).ps
                })
                &&& final(self).ps.sm@ == StateTag::Recording
                &&& final(self).press == Some(
                    Press { cycle_id: old(self).ps.perf_history.next_id(), t_press, mode },
                )
                &&& acts(v@) == press_acts(old(self).ps.realtime is Some, mode)
            },
    {
        let cycle_id: u64 = self.ps.perf_history.next_cycle_id();
        let can_record = self.ps.sm_start_recording();
        let mut v = nothing();
        if can_record && !engine_ready {
            let mut v = reset_to_idle(&mut self.ps);
            emit_text(&mut v, "speech-error", "模型加载中，请稍候...");
            return v;
        }
        if can_record {
            self.ps.review.shown_on_press = false;
            if let Some(rt) = self.ps.realtime.take() {
                let mut rt = rt;
                rt.stop();
                queue(&mut v, Action::StopRealtime);
            }
            let config = self.ps.config_cache.read_cached();
            let policy = SessionPolicy::from_config(&config);
            let mode = policy.mode;
            let show_floating = match mode {
                PipelineMode::RealtimeReview => false,
                _ => true,
            };
            if show_floating {
                queue(&mut v, Action::ShowFloating);
            }
            emit(&mut v, "recording-start");
            queue(&mut v, Action::ClearRing);
            queue(&mut v, Action::StartCapture);
            self.press = Some(Press { cycle_id, t_press, mode });
            assert(acts(v@) =~= press_acts(old(self).ps.realtime is Some, mode));
        }
        v
    }

    /// The capture that a press asked for has begun, or not. `foreground` is the window that has
    /// the focus.
    pub fn on_capture_started(
        &mut self,
        outcome: Result<(), AppError>,
        sample_rate: Option<u32>,
        foreground: isize,
        now: u64,
    ) -> (v: Vec<Action>)
        requires
            old(self).press matches Some(press) ==> outcome is Ok ==> (realtime_rate(
                press.mode,
                sample_rate,
            ) matches Some(rate) ==> rate * WINDOW_SECS <= u32::MAX),
        ensures
            final(self).press is None,
            old(self).press is None ==> {
                &&& final(self).ps == old(self).ps
                &&& final(self).perf_slot == old(self).perf_slot
                &&& final(self).pressed_at == old(self).pressed_at
                &&& acts(v@) == Seq::<Act>::empty()
            },
            old(self).press matches Some(press) ==> match outcome {
                Err(e) => {
                    &&& at_rest(old(self).ps, final(self).ps)
                    &&& final(self).perf_slot == old(self).perf_slot
                    &&& final(self).pressed_at == old(self).pressed_at
                    &&& acts(v@) == idle_acts(old(self).ps.review.shown_on_press).push(
                        actions::text_event(
                            "speech-error"@,
                            "录音启动失败: "@ + (e.prefix() + e.detail()),
                        ),
                    )
                },
                Ok(_) => {
                    let started = realtime_rate(press.mode, sample_rate);
                    &&& final(self).ps == (PipelineState {
                        realtime: final(self).ps.realtime,
                        review: if press.mode == PipelineMode::RealtimeReview {
                            PendingReview {
                                foreground_hwnd: Some(foreground),
                                shown_on_press: true,
                                ..old(self).ps.review
                            }
                        } else {
                            old(self).ps.review
                        },
                        ..old(self).ps
                    })
                    &&& match started {
                        Some(rate) => {
                            &&& final(self).ps.realtime matches Some(rt)
                            &&& rt.running
                            &&& rt.sample_rate == rate
                            &&& rt.accumulated@.len() == 0
                            &&& rt.prev_partial@.len() == 0
                        },
                        None => final(self).ps.realtime == old(self).ps.realtime,
                    }
                    &&& final(self).perf_slot == Some(
                        PerfMetrics {
                            press_latency_ms: Some(delivery::span(press.t_press, now)),
                            ..perf::fresh_metrics(press.cycle_id)
                        },
                    )
                    &&& final(self).pressed_at == Some(press.t_press)
                    &&& acts(v@) == capture_acts(press.mode, sample_rate)
                },
            },
    {
        let press = match self.press.take() {
            Some(p) => p,
            None => {
                return nothing();
            },
        };
        if let Err(e) = outcome {
            let mut v = reset_to_idle(&mut self.ps);
            let message = "录音启动失败: ".to_owned().concat(e.to_string().as_str());
            emit_text(&mut v, "speech-error", message.as_str());
            return v;
        }
        let mut v = nothing();
        let realtime = match press.mode {
            PipelineMode::RealtimeDirect | PipelineMode::RealtimeReview => true,
            _ => false,
        };
        if realtime {
            if let Some(rate) = sample_rate {
                self.ps.realtime = Some(RealtimeTranscriber::start(rate));
                queue(&mut v, Action::StartRealtime(rate));
            }
        }
        if let PipelineMode::RealtimeReview = press.mode {
            self.ps.review.save_foreground(foreground);
            self.ps.review.shown_on_press = true;
            queue(&mut v, Action::ShowReview);
        }
        let mut m = PerfMetrics::new(press.cycle_id);
        m.press_latency_ms = Some(elapsed(press.t_press, now));
        self.perf_slot = Some(m);
        self.pressed_at = Some(press.t_press);
        assert(acts(v@) =~= capture_acts(press.mode, sample_rate));
        v
    }

    /// The hotkey is released: recording and realtime transcription stop. Realtime text that is in
    /// the review window already is handed over to the review; otherwise the audio is needed, and
    /// [`RecordingSession::on_audio_taken`] goes on.
    pub fn on_release(&mut self, t_release: u64, sample_rate: Option<u32>) -> (r: (
        Vec<Action>,
        ReleaseAction,
    ))
        ensures
            final(self).perf_slot is None,
            final(self).pressed_at is None,
            final(self).press == old(self).press,
            final(self).ps == (PipelineState {
                sm: final(self).ps.sm,
                perf_history: final(self).ps.perf_history,
                realtime: None,
                ..old(self).ps
            }),
            old(self).perf_slot is Some ==> final(self).ps.perf_history == old(
                self,
            ).ps.perf_history,
            old(self).perf_slot is None ==> delivery::id_taken(
                old(self).ps.perf_history,
                final(self).ps.perf_history,
            ),
            ({
                let gathered = pipeline_state::gathered(old(self).ps.realtime);
                let policy = policy_of(old(self).ps.config_cache@);
                let kind = release_kind(policy.mode, gathered is Some);
                let stops = pipeline_state::stop_acts(old(self).ps.realtime is Some);
                let t_press = press_time(old(self).pressed_at, t_release);
                let m = release_metrics(
                    old(self).perf_slot,
                    old(self).ps.perf_history.next_id(),
                    t_press,
                    t_release,
                );
                if kind == ReleaseActionKind::Done {
                    &&& r.1 is Done
                    &&& final(self).ps.sm@ == state::after(
                        state::after(old(self).ps.sm@, Verb::StopRecording),
                        Verb::TranscribingToReviewing,
                    )
                    &&& acts(r.0@) == stops + seq![Act::SaveClipboard, Act::HideFloating]
                } else {
                    &&& r.1 matches ReleaseAction::TakeAudio(p)
                    &&& final(self).ps.sm == old(self).ps.sm
                    &&& acts(r.0@) == stops
                    &&& p == (PendingRelease {
                        accumulated: p.accumulated,
                        native_rate: match sample_rate {
                            Some(rate) => rate,
                            None => DEFAULT_SAMPLE_RATE,
                        },
                        perf: m,
                        t_release,
                        t_press_for_e2e: t_press,
                        policy,
                    })
                    &&& data_saving::text_of(p.accumulated) == (if kind
                        == ReleaseActionKind::DeliverFast {
                        gathered
                    } else {
                        None
                    })
                }
            }),
    {
        let mut m = match self.perf_slot.take() {
            Some(m) => m,
            None => PerfMetrics::new(self.ps.perf_history.next_cycle_id()),
        };
        let t_press_for_e2e: u64 = match self.pressed_at.take() {
            Some(t) => if t <= t_release {
                t
            } else {
                t_release
            },
            None => t_release,
        };
        m.audio_duration_ms = Some(elapsed(t_press_for_e2e, t_release));
        let stopped = self.ps.stop_recording_resources();
        let mut v = stopped.0;
        let accumulated = stopped.1;
        let ghost stops = acts(v@);
        let config = self.ps.config_cache.read_cached();
        let policy = SessionPolicy::from_config(&config);
        let native_rate: u32 = match sample_rate {
            Some(rate) => rate,
            None => DEFAULT_SAMPLE_RATE,
        };
        let kind = decide_release(
            policy.mode,
            match &accumulated {
                Some(t) => Some(t.as_str()),
                None => None,
            },
        );
        match kind {
            ReleaseActionKind::Done => {
                queue(&mut v, Action::SaveClipboard);
                self.ps.sm_stop_recording();
                self.ps.sm_transcribing_to_reviewing();
                queue(&mut v, Action::HideFloating);
                assert(acts(v@) =~= stops + seq![Act::SaveClipboard, Act::HideFloating]);
                (v, ReleaseAction::Done)
            },
            ReleaseActionKind::DeliverFast => (
                v,
                ReleaseAction::TakeAudio(
                    PendingRelease {
                        accumulated,
                        native_rate,
                        perf: m,
                        t_release,
                        t_press_for_e2e,
                        policy,
                    },
                ),
            ),
            ReleaseActionKind::DeliverFull => (
                v,
                ReleaseAction::TakeAudio(
                    PendingRelease {
                        accumulated: None,
                        native_rate,
                        perf: m,
                        t_release,
                        t_press_for_e2e,
                        policy,
                    },
                ),
            ),
        }
    }

    /// The audio of a released recording has been taken: so many samples, near-silent or not.
    /// Silence is not transcribed. A recording that the state machine does not know of is dropped.
    /// A delivery that begins gets a cancellation token of its own, numbered like its cycle, that
    /// nobody has cancelled.
    pub fn on_audio_taken(
        &mut self,
        pending: PendingRelease,
        samples: usize,
        silent: bool,
        now: u64,
    ) -> (r: (Vec<Action>, Delivery))
        ensures
            final(self).perf_slot == old(self).perf_slot,
            final(self).pressed_at == old(self).pressed_at,
            final(self).press == old(self).press,
            ({
                let m = audio_metrics(
                    pending.perf,
                    samples,
                    pending.native_rate,
                    delivery::span(pending.t_release, now),
                );
                let mode = pending.policy.mode;
                if pending.accumulated is None && silent {
                    &&& r.1 is Nothing
                    &&& at_rest(old(self).ps, final(self).ps)
                    &&& acts(r.0@) == idle_acts(old(self).ps.review.shown_on_press)
                } else if old(self).ps.sm@ != StateTag::Recording {
                    &&& r.1 is Nothing
                    &&& final(self).ps == (PipelineState { sm: final(self).ps.sm, ..old(self).ps })
                    &&& final(self).ps.sm@ == (if pending.accumulated is Some {
                        StateTag::Idle
                    } else {
                        old(self).ps.sm@
                    })
                    &&& acts(r.0@) == seq![Act::HideFloating]
                } else {
                    &&& final(self).ps == (PipelineState {
                        sm: final(self).ps.sm,
                        cancel_token: Some(
                            CancelToken { id: pending.perf.cycle_id, cancelled: false },
                        ),
                        ..old(self).ps
                    })
                    &&& final(self).ps.sm@ == StateTag::Transcribing
                    &&& acts(r.0@) == Seq::<Act>::empty()
                    &&& match pending.accumulated {
                        Some(text) => r.1 == Delivery::Fast(
                            PipelineJob {
                                transcription: text,
                                save_result: None,
                                review: false,
                                perf: m,
                                t_press_for_e2e: pending.t_press_for_e2e,
                                policy: pending.policy,
                            },
                        ),
                        None => {
                            &&& r.1 matches Delivery::Full(job)
                            &&& job == (PipelineJob {
                                transcription: job.transcription,
                                save_result: None,
                                review: mode == PipelineMode::ClassicReview || mode
                                    == PipelineMode::RealtimeReview,
                                perf: m,
                                t_press_for_e2e: pending.t_press_for_e2e,
                                policy: pending.policy,
                            })
                            &&& job.transcription@.len() == 0
                        },
                    }
                }
            }),
    {
        let fast = pending.accumulated.is_some();
        if !fast && silent {
            let v = reset_to_idle(&mut self.ps);
            return (v, Delivery::Nothing);
        }
        let mut v = nothing();
        let stop_ok = self.ps.sm_stop_recording();
        if !stop_ok {
            if fast {
                self.ps.sm_reset();
            }
            queue(&mut v, Action::HideFloating);
            assert(acts(v@) =~= seq![Act::HideFloating]);
            return (v, Delivery::Nothing);
        }
        self.ps.set_cancel_token(CancelToken::new(pending.perf.cycle_id));
        let mut m = pending.perf;
        m.audio_samples = samples;
        m.audio_sample_rate = pending.native_rate;
        m.release_latency_ms = Some(elapsed(pending.t_release, now));
        let review = match pending.policy.mode {
            PipelineMode::ClassicReview | PipelineMode::RealtimeReview => true,
            _ => false,
        };
        match pending.accumulated {
            Some(text) => (
                v,
                Delivery::Fast(
                    PipelineJob {
                        transcription: text,
                        save_result: None,
                        review: false,
                        perf: m,
                        t_press_for_e2e: pending.t_press_for_e2e,
                        policy: pending.policy,
                    },
                ),
            ),
            None => (
                v,
                Delivery::Full(
                    PipelineJob {
                        transcription: String::new(),
                        save_result: None,
                        review,
                        perf: m,
                        t_press_for_e2e: pending.t_press_for_e2e,
                        policy: pending.policy,
                    },
                ),
            ),
        }
    }

    /// The delivery has died: everything returns to idle and the user is told so.
    pub fn recover(&mut self) -> (v: Vec<Action>)
        ensures
            *final(self) == (RecordingSession { ps: final(self).ps, ..*old(self) }),
            final(self).ps == (PipelineState {
                sm: final(self).ps.sm,
                cancel_token: None,
                ..old(self).ps
            }),
            final(self).ps.sm@ == StateTag::Idle,
            acts(v@) == seq![
                Act::HideFloating,
                Act::RestoreClipboardIfSaved,
                actions::text_event("speech-error"@, "转录流程异常，已恢复"@),
            ],
    {
        self.ps.take_cancel_token();
        self.ps.sm_reset();
        let mut v = nothing();
        queue(&mut v, Action::HideFloating);
        queue(&mut v, Action::RestoreClipboardIfSaved);
        emit_text(&mut v, "speech-error", "转录流程异常，已恢复");
        assert(acts(v@) =~= seq![
            Act::HideFloating,
            Act::RestoreClipboardIfSaved,
            actions::text_event("speech-error"@, "转录流程异常，已恢复"@),
        ]);
        v
    }
}

/// What the host does when a delivery was cancelled: the work behind its token is stopped, and the
/// user is told.
pub open spec fn pipeline_cancelled_acts(token: Option<CancelToken>) -> Seq<Act> {
    (match token {
        Some(t) => seq![Act::CancelDelivery(t.id)],
        None => seq![],
    }) + seq![Act::HideFloating, actions::event("pipeline-cancelled"@)]
}

/// A token after it was cancelled.
pub open spec fn cancelled(token: Option<CancelToken>) -> Option<CancelToken> {
    match token {
        Some(t) => Some(CancelToken { cancelled: true, ..t }),
        None => None,
    }
}

/// Cancel the delivery in flight, as the escape key asks for: only while it is transcribed or
/// refined. Its token is set, and what goes on behind it is stopped. Hands out whether there was
/// one to cancel; otherwise the key is for the focused application.
pub fn cancel_active_pipeline(ps: &mut PipelineState) -> (r: (Vec<Action>, bool))
    ensures
        r.1 == (old(ps).sm@ == StateTag::Transcribing || old(ps).sm@ == StateTag::LLMRefining),
        r.1 ==> {
            &&& *final(ps) == (PipelineState {
                sm: final(ps).sm,
                cancel_token: cancelled(old(ps).cancel_token),
                ..*old(ps)
            })
            &&& final(ps).sm@ == StateTag::Idle
            &&& acts(r.0@) == pipeline_cancelled_acts(old(ps).cancel_token)
        },
        !r.1 ==> {
            &&& *final(ps) == (PipelineState { sm: final(ps).sm, ..*old(ps) })
            &&& final(ps).sm@ == old(ps).sm@
            &&& acts(r.0@) == Seq::<Act>::empty()
        },
{
    let mut v = nothing();
    if !ps.sm_cancel_transcribing_or_llm() {
        return (v, false);
    }
    if let Some(token) = ps.cancel_token {
        ps.cancel_token = Some(CancelToken { id: token.id, cancelled: true });
        queue(&mut v, Action::CancelDelivery(token.id));
    }
    queue(&mut v, Action::HideFloating);
    emit(&mut v, "pipeline-cancelled");
    assert(acts(v@) =~= pipeline_cancelled_acts(old(ps).cancel_token));
    (v, true)
}

/// A transcription has arrived, or has failed: it is reported, and a failure ends the session.
/// Hands out the text, which is empty after a failure.
pub fn transcribe_and_save(ps: &mut PipelineState, heard: Result<String, String>) -> (r: (
    Vec<Action>,
    String,
))
    ensures
        match heard {
            Ok(text) => {
                &&& *final(ps) == *old(ps)
                &&& acts(r.0@) == seq![actions::text_event("transcription-complete"@, text@)]
                &&& r.1 == text
            },
            Err(e) => {
                &&& at_rest(*old(ps), *final(ps))
                &&& acts(r.0@) == seq![actions::text_event("speech-error"@, e@)] + idle_acts(
                    old(ps).review.shown_on_press,
                )
                &&& r.1@.len() == 0
            },
        },
{
    let mut v = nothing();
    match heard {
        Ok(text) => {
            emit_text(&mut v, "transcription-complete", text.as_str());
            assert(acts(v@) =~= seq![actions::text_event("transcription-complete"@, text@)]);
            (v, text)
        },
        Err(e) => {
            emit_text(&mut v, "speech-error", e.as_str());
            let hiding = reset_to_idle(ps);
            queue_all(&mut v, hiding);
            assert(acts(v@) =~= seq![actions::text_event("speech-error"@, e@)] + idle_acts(
                old(ps).review.shown_on_press,
            ));
            (v, String::new())
        },
    }
}

/// What is known of a saved recording once its text is in the review window.
pub open spec fn kept_review(
    before: PendingReview,
    text: String,
    data: Option<ReviewData>,
) -> PendingReview {
    PendingReview {
        text: Some(text),
        data_saving: match data {
            Some(d) => Some(d),
            None => before.data_saving,
        },
        ..before
    }
}

/// Hand a text over to the review window. One that was shown when the hotkey was pressed is
/// updated; otherwise it is shown now, and [`review_window_shown`] goes on. `foreground` is the
/// window that has the focus.
pub fn deliver_review(
    ps: &mut PipelineState,
    final_text: String,
    transcription: String,
    save_result: Option<SaveResult>,
    policy: &SessionPolicy,
    foreground: isize,
) -> (r: (Vec<Action>, DeliverStep))
    ensures
        final(ps).sm@ == state::after(old(ps).sm@, delivery::review_verb(policy.llm_enabled)),
        ({
            let data = delivery::review_data_of(
                save_result,
                transcription,
                final_text,
                policy.llm_enabled,
            );
            if old(ps).review.shown_on_press {
                &&& *final(ps) == (PipelineState {
                    sm: final(ps).sm,
                    review: kept_review(old(ps).review, final_text, data),
                    cancel_token: None,
                    ..*old(ps)
                })
                &&& acts(r.0@) == seq![
                    Act::SaveClipboard,
                    Act::EvalReviewJs(
                        delivery::script_for(delivery::json_string(final_text@)),
                    ),
                    Act::EmitReviewFinalText(final_text@),
                ]
                &&& r.1 is Settled
            } else {
                &&& *final(ps) == (PipelineState {
                    sm: final(ps).sm,
                    review: PendingReview {
                        text: Some(final_text),
                        foreground_hwnd: Some(foreground),
                        ..old(ps).review
                    },
                    ..*old(ps)
                })
                &&& acts(r.0@) == seq![Act::SaveClipboard, Act::ShowReview]
                &&& r.1 == DeliverStep::AwaitWindow(
                    PendingShow { final_text, review_data: data },
                )
            }
        }),
{
    let mut v = nothing();
    queue(&mut v, Action::SaveClipboard);
    if policy.llm_enabled {
        ps.sm_llm_to_reviewing();
    } else {
        ps.sm_transcribing_to_reviewing();
    }
    ps.review.text = Some(final_text.clone());
    let data = review_data(save_result, transcription, &final_text, policy.llm_enabled);
    if ps.review.shown_on_press {
        push_to_review(&mut v, final_text.as_str());
        if data.is_some() {
            ps.review.data_saving = data;
        }
        ps.take_cancel_token();
        assert(acts(v@) =~= seq![
            Act::SaveClipboard,
            Act::EvalReviewJs(delivery::script_for(delivery::json_string(final_text@))),
            Act::EmitReviewFinalText(final_text@),
        ]);
        return (v, DeliverStep::Settled);
    }
    ps.review.save_foreground(foreground);
    queue(&mut v, Action::ShowReview);
    assert(acts(v@) =~= seq![Act::SaveClipboard, Act::ShowReview]);
    (v, DeliverStep::AwaitWindow(PendingShow { final_text, review_data: data }))
}

/// Go on once the host has tried to show the review window. Where it was not found, the text is
/// pasted at once.
pub fn review_window_shown(ps: &mut PipelineState, pending: PendingShow, found: bool) -> (v: Vec<
    Action,
>)
    ensures
        found ==> {
            &&& *final(ps) == (PipelineState {
                review: PendingReview {
                    data_saving: match pending.review_data {
                        Some(d) => Some(d),
                        None => old(ps).review.data_saving,
                    },
                    ..old(ps).review
                },
                cancel_token: None,
                ..*old(ps)
            })
            &&& acts(v@) == Seq::<Act>::empty()
        },
        !found ==> {
            &&& *final(ps) == (PipelineState { sm: final(ps).sm, cancel_token: None, ..*old(ps) })
            &&& final(ps).sm@ == state::after(old(ps).sm@, Verb::FinishInjecting)
            &&& acts(v@) == seq![
                Act::SaveClipboard,
                Act::InjectText(pending.final_text@),
                actions::event("injection-complete"@),
                Act::HideFloating,
            ]
        },
{
    let mut v = nothing();
    ps.take_cancel_token();
    if found {
        if pending.review_data.is_some() {
            ps.review.data_saving = pending.review_data;
        }
        return v;
    }
    let ghost pasted = pending.final_text@;
    queue(&mut v, Action::SaveClipboard);
    queue(&mut v, Action::InjectText(pending.final_text));
    ps.sm_finish_injecting();
    emit(&mut v, "injection-complete");
    queue(&mut v, Action::HideFloating);
    assert(acts(v@) =~= seq![
        Act::SaveClipboard,
        Act::InjectText(pasted),
        actions::event("injection-complete"@),
        Act::HideFloating,
    ]);
    v
}

/// Paste a text at once; [`crate::commands::text_injector::text_injected`] goes on.
pub fn deliver_direct(ps: &mut PipelineState, job: PipelineJob, final_text: String) -> (r: (
    Vec<Action>,
    InjectionContext,
))
    ensures
        *final(ps) == (PipelineState { sm: final(ps).sm, ..*old(ps) }),
        final(ps).sm@ == state::after(
            old(ps).sm@,
            delivery::inject_verb(job.policy.llm_enabled),
        ),
        acts(r.0@) == seq![Act::SaveAndInject(final_text@)],
        r.1 == (InjectionContext {
            text: final_text,
            transcription: job.transcription,
            save_result: job.save_result,
            llm_enabled: job.policy.llm_enabled,
            perf: job.perf,
            t_press_for_e2e: job.t_press_for_e2e,
        }),
{
    if job.policy.llm_enabled {
        ps.sm_llm_to_injecting();
    } else {
        ps.sm_transcribing_to_injecting();
    }
    let ctx = InjectionContext {
        text: final_text,
        transcription: job.transcription,
        save_result: job.save_result,
        llm_enabled: job.policy.llm_enabled,
        perf: job.perf,
        t_press_for_e2e: job.t_press_for_e2e,
    };
    let v = inject_text(&ctx);
    (v, ctx)
}

/// What follows for a job whose transcription is known: a correction where it is enabled, the
/// delivery otherwise.
pub open spec fn goes_on(
    before: PipelineState,
    after: PipelineState,
    v: Seq<Act>,
    next: PipelineNext,
    job: PipelineJob,
) -> bool {
    if job.policy.llm_enabled {
        &&& refining(before, after, job.policy)
        &&& v == seq![actions::event("llm-refining"@)]
        &&& next == PipelineNext::Correct(job)
    } else {
        &&& after == before
        &&& v == Seq::<Act>::empty()
        &&& next matches PipelineNext::Deliver(j, text)
        &&& j == job
        &&& text@ == final_form(job.transcription@, job.policy.language)
    }
}

impl RecordingSession {
    fn correct_or_deliver(&mut self, job: PipelineJob) -> (r: (Vec<Action>, PipelineNext))
        ensures
            *final(self) == (RecordingSession { ps: final(self).ps, ..*old(self) }),
            goes_on(old(self).ps, final(self).ps, acts(r.0@), r.1, job),
    {
        if job.policy.llm_enabled {
            let v = resolve_llm_text(&mut self.ps, &job.policy);
            (v, PipelineNext::Correct(job))
        } else {
            let text = finalize_text(job.transcription.clone(), job.policy.language);
            (nothing(), PipelineNext::Deliver(job, text))
        }
    }

    /// The recording of a job has been transcribed, or could not be, in so many milliseconds, and was
    /// saved, or not. An empty transcription ends the session.
    pub fn run_pipeline(
        &mut self,
        job: PipelineJob,
        heard: Result<String, String>,
        transcription_ms: u64,
        save_result: Option<SaveResult>,
    ) -> (r: (Vec<Action>, PipelineNext))
        ensures
            *final(self) == (RecordingSession { ps: final(self).ps, ..*old(self) }),
            match heard {
                Err(e) => {
                    &&& at_rest(without_token(old(self).ps), final(self).ps)
                    &&& acts(r.0@) == seq![actions::text_event("speech-error"@, e@)] + idle_acts(
                        old(self).ps.review.shown_on_press,
                    ) + idle_acts(false)
                    &&& r.1 is Idle
                },
                Ok(text) => {
                    let told = seq![actions::text_event("transcription-complete"@, text@)];
                    if text@.len() == 0 {
                        &&& at_rest(without_token(old(self).ps), final(self).ps)
                        &&& acts(r.0@) == told + idle_acts(old(self).ps.review.shown_on_press)
                        &&& r.1 is Idle
                    } else {
                        &&& acts(r.0@).len() >= 1
                        &&& acts(r.0@).take(1) == told
                        &&& goes_on(
                            old(self).ps,
                            final(self).ps,
                            acts(r.0@).skip(1),
                            r.1,
                            PipelineJob {
                                transcription: text,
                                save_result,
                                perf: transcribed_metrics(
                                    job.perf,
                                    transcription_ms,
                                    job.policy.llm_enabled,
                                ),
                                ..job
                            },
                        )
                    }
                },
            },
    {
        let ghost outcome = heard;
        let told = transcribe_and_save(&mut self.ps, heard);
        let mut v = told.0;
        let transcription = told.1;
        let mut job = job;
        let ghost first = acts(v@);
        if transcription.as_str().is_empty() {
            let hiding = reset_to_idle(&mut self.ps);
            queue_all(&mut v, hiding);
            self.ps.take_cancel_token();
            return (v, PipelineNext::Idle);
        }
        if job.perf.transcription_ms.is_none() {
            job.perf.transcription_ms = Some(transcription_ms);
        }
        job.perf.llm_enabled = job.policy.llm_enabled;
        job.transcription = transcription;
        job.save_result = save_result;
        let step = self.correct_or_deliver(job);
        let ghost second = acts(step.0@);
        queue_all(&mut v, step.0);
        assert((first + second).take(1) =~= first);
        assert((first + second).skip(1) =~= second);
        (v, step.1)
    }

    /// Deliver realtime text without transcribing the recording. The saving of the recording goes
    /// on meanwhile; its outcome joins the job before the delivery.
    pub fn run_realtime_fast_path(&mut self, job: PipelineJob) -> (r: (Vec<Action>, PipelineNext))
        ensures
            *final(self) == (RecordingSession { ps: final(self).ps, ..*old(self) }),
            goes_on(
                old(self).ps,
                final(self).ps,
                acts(r.0@),
                r.1,
                PipelineJob {
                    perf: PerfMetrics { llm_enabled: job.policy.llm_enabled, ..job.perf },
                    ..job
                },
            ),
    {
        let mut job = job;
        job.perf.llm_enabled = job.policy.llm_enabled;
        self.correct_or_deliver(job)
    }

    /// The language model has answered, or has failed: it is reported, and the corrected text, or
    /// the transcription after a failure, gets its final form.
    pub fn on_corrected(&mut self, job: PipelineJob, reply: Result<String, AppError>, llm_ms: u64)
        -> (r: (Vec<Action>, PipelineJob, String))
        ensures
            *final(self) == *old(self),
            acts(r.0@) == seq![correction_event(reply)],
            r.1 == (PipelineJob {
                perf: PerfMetrics { llm_correction_ms: Some(llm_ms), ..job.perf },
                ..job
            }),
            r.2@ == final_form(
                corrected_text(reply, job.transcription@),
                job.policy.language,
            ),
    {
        let ghost answer = reply;
        let mut job = job;
        job.perf.llm_correction_ms = Some(llm_ms);
        let mut v = nothing();
        let text = match reply {
            Ok(corrected) => {
                emit_text(&mut v, "llm-complete", corrected.as_str());
                corrected
            },
            Err(e) => {
                emit_text(&mut v, "llm-error", e.to_string().as_str());
                job.transcription.clone()
            },
        };
        assert(acts(v@) =~= seq![correction_event(answer)]);
        let text = finalize_text(text, job.policy.language);
        (v, job, text)
    }

    /// Deliver the text of a job: into the review window or straight by paste. `foreground` is the
    /// window that has the focus.
    pub fn deliver(&mut self, job: PipelineJob, final_text: String, foreground: isize) -> (r: (
        Vec<Action>,
        DeliverStep,
    ))
        ensures
            *final(self) == (RecordingSession { ps: final(self).ps, ..*old(self) }),
            !job.review ==> {
                &&& final(self).ps == (PipelineState { sm: final(self).ps.sm, ..old(self).ps })
                &&& final(self).ps.sm@ == state::after(
                    old(self).ps.sm@,
                    delivery::inject_verb(job.policy.llm_enabled),
                )
                &&& acts(r.0@) == seq![Act::SaveAndInject(final_text@)]
                &&& r.1 == DeliverStep::AwaitPaste(
                    InjectionContext {
                        text: final_text,
                        transcription: job.transcription,
                        save_result: job.save_result,
                        llm_enabled: job.policy.llm_enabled,
                        perf: job.perf,
                        t_press_for_e2e: job.t_press_for_e2e,
                    },
                )
            },
            job.review ==> {
                let data = delivery::review_data_of(
                    job.save_result,
                    job.transcription,
                    final_text,
                    job.policy.llm_enabled,
                );
                &&& final(self).ps.sm@ == state::after(
                    old(self).ps.sm@,
                    delivery::review_verb(job.policy.llm_enabled),
                )
                &&& if old(self).ps.review.shown_on_press {
                    &&& final(self).ps == (PipelineState {
                        sm: final(self).ps.sm,
                        review: kept_review(old(self).ps.review, final_text, data),
                        cancel_token: None,
                        ..old(self).ps
                    })
                    &&& acts(r.0@) == seq![
                        Act::SaveClipboard,
                        Act::EvalReviewJs(
                            delivery::script_for(delivery::json_string(final_text@)),
                        ),
                        Act::EmitReviewFinalText(final_text@),
                    ]
                    &&& r.1 is Settled
                } else {
                    &&& final(self).ps == (PipelineState {
                        sm: final(self).ps.sm,
                        review: PendingReview {
                            text: Some(final_text),
                            foreground_hwnd: Some(foreground),
                            ..old(self).ps.review
                        },
                        ..old(self).ps
                    })
                    &&& acts(r.0@) == seq![Act::SaveClipboard, Act::ShowReview]
                    &&& r.1 == DeliverStep::AwaitWindow(
                        PendingShow { final_text, review_data: data },
                    )
                }
            },
    {
        if job.review {
            deliver_review(
                &mut self.ps,
                final_text,
                job.transcription,
                job.save_result,
                &job.policy,
                foreground,
            )
        } else {
            let step = deliver_direct(&mut self.ps, job, final_text);
            (step.0, DeliverStep::AwaitPaste(step.1))
        }
    }
}

/// Full-width punctuation changes no length.
pub proof fn normalizing_keeps_the_length(s: Seq<char>)
    ensures
        normalized(s).len() == s.len(),
{
}

/// Normalizing a normalized text changes nothing.
pub proof fn normalizing_twice_is_normalizing_once(s: Seq<char>)
    ensures
        normalized(normalized(s)) == normalized(s),
{
    let n = normalized(s);
    assert forall|i: int| 0 <= i < s.len() implies normal_char(n, i) == #[trigger] n[i] by {
        assert(n[i] == normal_char(s, i));
        if i > 0 {
            assert(n[i - 1] == normal_char(s, i - 1));
        }
        if i + 1 < s.len() {
            assert(n[i + 1] == normal_char(s, i + 1));
        }
    }
    assert(normalized(n) =~= n);
}

/// Text without ideographs keeps its punctuation.
pub proof fn text_without_ideographs_is_kept(s: Seq<char>)
    requires
        forall|i: int| 0 <= i < s.len() ==> !ideograph(#[trigger] s[i]),
    ensures
        normalized(s) == s,
{
    assert forall|i: int| 0 <= i < s.len() implies normal_char(s, i) == #[trigger] s[i] by {
        if i > 0 {
            assert(!ideograph(s[i - 1]));
        }
    }
    assert(normalized(s) =~= s);
}

/// A point between digits is a decimal point, and is kept.
pub proof fn decimal_points_are_kept(s: Seq<char>, i: int)
    requires
        0 < i < s.len() - 1,
        s[i] == '.',
        '0' <= s[i - 1] <= '9',
        '0' <= s[i + 1] <= '9',
    ensures
        normalized(s)[i] == '.',
{
}

/// The transitions of a dictation that goes well: recorded, transcribed, corrected where that is
/// enabled, reviewed where that is asked for, and pasted.
pub open spec fn dictation(llm: bool, review: bool) -> Seq<Verb> {
    seq![Verb::StartRecording, Verb::StopRecording] + (if llm {
        seq![Verb::StartLlmRefining]
    } else {
        seq![]
    }) + (if review {
        seq![delivery::review_verb(llm), Verb::ReviewingToInjecting]
    } else {
        seq![delivery::inject_verb(llm)]
    }) + seq![Verb::FinishInjecting]
}

/// A dictation that goes well ends where it began, ready for the next.
pub proof fn dictation_ends_at_rest(llm: bool, review: bool)
    ensures
        state::run(StateTag::Idle, dictation(llm, review)) == StateTag::Idle,
{
    reveal_with_fuel(state::run, 8);
    let d = dictation(llm, review);
    if llm && review {
        assert(d =~= seq![
            Verb::StartRecording,
            Verb::StopRecording,
            Verb::StartLlmRefining,
            Verb::LlmToReviewing,
            Verb::ReviewingToInjecting,
            Verb::FinishInjecting,
        ]);
    } else if llm {
        assert(d =~= seq![
            Verb::StartRecording,
            Verb::StopRecording,
            Verb::StartLlmRefining,
            Verb::LlmToInjecting,
            Verb::FinishInjecting,
        ]);
    } else if review {
        assert(d =~= seq![
            Verb::StartRecording,
            Verb::StopRecording,
            Verb::TranscribingToReviewing,
            Verb::ReviewingToInjecting,
            Verb::FinishInjecting,
        ]);
    } else {
        assert(d =~= seq![
            Verb::StartRecording,
            Verb::StopRecording,
            Verb::TranscribingToInjecting,
            Verb::FinishInjecting,
        ]);
    }
}

/// The realtime text is used where there is any, and only in realtime modes.
pub proof fn realtime_text_is_used_in_realtime_modes(mode: PipelineMode, gathered: bool)
    ensures
        release_kind(mode, gathered) == ReleaseActionKind::DeliverFull <==> !gathered || mode
            == PipelineMode::ClassicDirect || mode == PipelineMode::ClassicReview,
{
}

/// Normalizing changes nothing but commas and periods: a comma becomes a full-width comma or stays,
/// a period becomes an ideographic full stop or stays. It becomes one where an ideograph, of the
/// range from U+4E00 to U+9FFF, stands before it and another one, or nothing, behind it.
pub proof fn only_commas_and_periods_are_normalized(s: &str, r: String, i: int)
    requires
        call_ensures(normalize_chinese_punctuation, (s,), r),
        0 <= i < s@.len(),
    ensures
        r@.len() == s@.len(),
        s@[i] != ',' && s@[i] != '.' ==> r@[i] == s@[i],
        s@[i] == ',' ==> r@[i] == '，' || r@[i] == ',',
        s@[i] == '.' ==> r@[i] == '。' || r@[i] == '.',
        s@[i] == ',' || s@[i] == '.' ==> (r@[i] != s@[i]) == (i > 0 && is_ideograph_code(s@[i - 1])
            && (i == s@.len() - 1 || is_ideograph_code(s@[i + 1]))),
{
    assert(r@[i] == normal_char(s@, i));
}

/// A character of the block of CJK unified ideographs.
pub open spec fn is_ideograph_code(c: char) -> bool {
    0x4DFF < (c as u32) < 0xA000
}

/// Only Chinese text is normalized when it gets its final form; any other stays as it is.
pub proof fn only_chinese_text_is_normalized(
    text: String,
    s: &str,
    language: Language,
    normal: String,
    r: String,
)
    requires
        call_ensures(finalize_text, (text, language), r),
        s@ == text@,
        call_ensures(normalize_chinese_punctuation, (s,), normal),
    ensures
        language == Language::Zh ==> r@ == normal@,
        language != Language::Zh ==> r@ == text@,
{
}

/// On release, the realtime text is delivered where there is one, or waits in the review window;
/// otherwise the recording is transcribed.
pub proof fn a_release_delivers_what_there_is(
    mode: PipelineMode,
    accumulated: Option<&str>,
    k: ReleaseActionKind,
)
    requires
        call_ensures(decide_release, (mode, accumulated), k),
    ensures
        k is DeliverFast <==> mode is RealtimeDirect && accumulated is Some,
        k is Done <==> mode is RealtimeReview && accumulated is Some,
        k is DeliverFull <==> mode is ClassicDirect || mode is ClassicReview || accumulated is None,
{
}

/// The snapshot of a session is the configuration at the press: changing the settings later does not
/// change it.
pub proof fn a_session_keeps_its_settings(c: AppConfig, p: SessionPolicy, mode: PipelineMode)
    requires
        call_ensures(SessionPolicy::from_config, (&c,), p),
        call_ensures(AppConfig::pipeline_mode, (&c,), mode),
    ensures
        p.mode == mode,
        p.llm_enabled == c.llm_enabled && p.language == c.language,
        p.llm_api_url == c.llm_api_url && p.llm_api_model == c.llm_model,
        p.save.enabled == c.data_saving_enabled && p.save.path == c.data_saving_path
            && p.save.language == c.language && p.save.whisper_model == c.whisper_model,
{
}

/// A press begins a recording at rest, with the audio of the last one forgotten; while the machine is
/// busy it does nothing, and while the model loads the user is told to wait.
pub proof fn a_press_begins_a_recording(
    s: &mut RecordingSession,
    t_press: u64,
    ready: bool,
    v: Vec<Action>,
    mode: PipelineMode,
)
    requires
        call_ensures(RecordingSession::on_press, (s, t_press, ready), v),
        call_ensures(AppConfig::pipeline_mode, (&old(s).ps.config_cache@,), mode),
    ensures
        !(old(s).ps.sm@ is Idle) ==> v@.len() == 0 && final(s).ps.sm@ == old(s).ps.sm@
            && final(s).press == old(s).press,
        old(s).ps.sm@ is Idle && !ready ==> final(s).ps.sm@ is Idle && final(s).press
            == old(s).press && (acts(v@).last() matches Act::Emit(name, _) && name
            == "speech-error"@),
        old(s).ps.sm@ is Idle && ready ==> {
            let told = acts(v@);
            let n = told.len() as int;
            &&& final(s).ps.sm@ is Recording
            &&& final(s).ps.realtime is None && !final(s).ps.review.shown_on_press
            &&& final(s).press is Some
            &&& final(s).press->0.t_press == t_press && final(s).press->0.mode == mode
            &&& final(s).press->0.cycle_id == old(s).ps.perf_history.next_id()
            &&& n >= 3
            &&& told[n - 3] == Act::Emit("recording-start"@, crate::commands::Content::Null)
            &&& told[n - 2] == Act::ClearRing
            &&& told[n - 1] == Act::StartCapture
            &&& told.contains(Act::ShowFloating) <==> !(mode is RealtimeReview)
        },
        final(s).ps.config_cache == old(s).ps.config_cache,
{
    assert(acts(v@).len() == v@.len());
    if old(s).ps.sm@ is Idle && ready {
        let told = acts(v@);
        let n = told.len() as int;
        if !(mode is RealtimeReview) {
            assert(told[n - 4] == Act::ShowFloating);
        }
    }
}

/// Once capture has begun, realtime modes begin to transcribe at the rate of the device, with no text
/// yet, and realtime review shows its window and remembers which one had the focus. A capture that
/// fails leaves everything at rest.
pub proof fn realtime_modes_transcribe_while_recording(
    s: &mut RecordingSession,
    outcome: Result<(), AppError>,
    rate: Option<u32>,
    foreground: isize,
    now: u64,
    v: Vec<Action>,
)
    requires
        call_ensures(
            RecordingSession::on_capture_started,
            (s, outcome, rate, foreground, now),
            v,
        ),
        old(s).press is Some,
        rate is Some ==> rate->0 * 5 <= u32::MAX,
    ensures
        ({
            let press = old(s).press->0;
            let realtime = press.mode is RealtimeDirect || press.mode is RealtimeReview;
            let review = press.mode is RealtimeReview;
            &&& final(s).press is None
            &&& outcome is Err ==> final(s).ps.sm@ is Idle && (acts(v@).last() matches Act::Emit(
                name,
                _,
            ) && name == "speech-error"@) && final(s).pressed_at == old(s).pressed_at
            &&& outcome is Ok ==> {
                &&& final(s).ps.sm == old(s).ps.sm
                &&& final(s).pressed_at == Some(press.t_press)
                &&& final(s).perf_slot is Some && final(s).perf_slot->0.cycle_id == press.cycle_id
                &&& press.t_press <= now ==> final(s).perf_slot->0.press_latency_ms == Some(
                    (now - press.t_press) as u64,
                )
                &&& realtime && rate is Some ==> acts(v@).len() > 0 && acts(v@)[0]
                    == Act::StartRealtime(rate->0) && final(s).ps.realtime is Some
                    && final(s).ps.realtime->0.running && final(s).ps.realtime->0.sample_rate
                    == rate->0 && final(s).ps.realtime->0.accumulated@.len() == 0
                &&& !realtime || rate is None ==> final(s).ps.realtime == old(s).ps.realtime
                &&& review ==> acts(v@).last() == Act::ShowReview
                    && final(s).ps.review.shown_on_press && final(s).ps.review.foreground_hwnd
                    == Some(foreground)
                &&& !review ==> final(s).ps.review == old(s).ps.review
                &&& !realtime ==> v@.len() == 0
            }
        }),
{
    assert(acts(v@).len() == v@.len());
}

/// A release stops the recording. Realtime text that is being reviewed is left to the review, any
/// other realtime text is delivered, and without one the recording is to be transcribed. The time
/// that the key was held is counted from its press.
pub proof fn a_release_stops_the_recording(
    s: &mut RecordingSession,
    t_release: u64,
    rate: Option<u32>,
    r: (Vec<Action>, ReleaseAction),
    mode: PipelineMode,
)
    requires
        call_ensures(RecordingSession::on_release, (s, t_release, rate), r),
        call_ensures(AppConfig::pipeline_mode, (&old(s).ps.config_cache@,), mode),
    ensures
        ({
            let rt = old(s).ps.realtime;
            let text = rt is Some && rt->0.accumulated@.len() > 0;
            let told = acts(r.0@);
            &&& final(s).ps.realtime is None && final(s).pressed_at is None
                && final(s).perf_slot is None
            &&& told[0] == Act::StopCapture
            &&& rt is Some ==> told[1] == Act::StopRealtime
            &&& r.1 is Done <==> mode is RealtimeReview && text
            &&& r.1 is Done && old(s).ps.sm@ is Recording ==> final(s).ps.sm@ is Reviewing
            &&& r.1 matches ReleaseAction::TakeAudio(p) ==> {
                &&& final(s).ps.sm == old(s).ps.sm
                &&& p.accumulated is Some <==> mode is RealtimeDirect && text
                &&& p.accumulated is Some ==> p.accumulated->0@ == rt->0.accumulated@
                &&& p.native_rate == (if rate is Some {
                    rate->0
                } else {
                    48000
                })
                &&& p.policy.mode == mode && p.policy.llm_enabled
                    == old(s).ps.config_cache@.llm_enabled && p.policy.language
                    == old(s).ps.config_cache@.language
                &&& p.t_release == t_release
                &&& old(s).pressed_at is Some && old(s).pressed_at->0 <= t_release
                    ==> p.t_press_for_e2e == old(s).pressed_at->0 && p.perf.audio_duration_ms
                    == Some((t_release - old(s).pressed_at->0) as u64)
                &&& old(s).perf_slot is Some ==> p.perf.cycle_id == old(s).perf_slot->0.cycle_id
                    && p.perf.press_latency_ms == old(s).perf_slot->0.press_latency_ms
            }
        }),
{
    let rt = old(s).ps.realtime;
    assert(data_saving::text_of(None::<String>) is None);
}

/// Silence is not transcribed, and a recording that the machine does not know of is dropped;
/// otherwise the delivery begins, under a token that nobody has set, with the realtime text where
/// there is one, and with a review in the modes that have one.
pub proof fn silence_is_not_transcribed(
    s: &mut RecordingSession,
    p: PendingRelease,
    samples: usize,
    silent: bool,
    now: u64,
    r: (Vec<Action>, Delivery),
)
    requires
        call_ensures(RecordingSession::on_audio_taken, (s, p, samples, silent, now), r),
    ensures
        ({
            let fast = p.accumulated is Some;
            let dropped = !fast && silent;
            let known = old(s).ps.sm@ is Recording;
            &&& r.1 is Nothing <==> dropped || !known
            &&& dropped ==> final(s).ps.sm@ is Idle
            &&& !dropped && !known && fast ==> final(s).ps.sm@ is Idle
            &&& !dropped && !known && !fast ==> final(s).ps.sm@ == old(s).ps.sm@
            &&& r.1 is Fast <==> fast && known
            &&& r.1 is Full <==> !fast && !silent && known
            &&& !dropped && known ==> final(s).ps.sm@ is Transcribing
                && final(s).ps.cancel_token is Some && !final(s).ps.cancel_token->0.cancelled
                && final(s).ps.cancel_token->0.id == p.perf.cycle_id && r.0@.len() == 0
            &&& r.1 matches Delivery::Fast(job) ==> job.perf.audio_sample_rate == p.native_rate && (
            p.t_release <= now ==> job.perf.release_latency_ms == Some((now - p.t_release) as u64))
            &&& r.1 matches Delivery::Full(job) ==> job.perf.audio_sample_rate == p.native_rate && (
            p.t_release <= now ==> job.perf.release_latency_ms == Some((now - p.t_release) as u64))
            &&& r.1 matches Delivery::Fast(job) ==> job.transcription == p.accumulated->0
                && !job.review && job.policy == p.policy && job.t_press_for_e2e
                == p.t_press_for_e2e && job.perf.audio_samples == samples
            &&& r.1 matches Delivery::Full(job) ==> (job.review <==> p.policy.mode is ClassicReview
                || p.policy.mode is RealtimeReview) && job.policy == p.policy && job.t_press_for_e2e
                == p.t_press_for_e2e && job.perf.audio_samples == samples
        }),
{
    assert(acts(r.0@).len() == r.0@.len());
}

/// What was transcribed is told as it is, and goes to the language model where that is switched on;
/// otherwise it gets its final form and is delivered. An empty transcription and a failed one end
/// the session at rest.
pub proof fn what_was_transcribed_goes_on(
    s: &mut RecordingSession,
    job: PipelineJob,
    heard: Result<String, String>,
    ms: u64,
    saved: Option<SaveResult>,
    r: (Vec<Action>, PipelineNext),
    formed: String,
)
    requires
        call_ensures(RecordingSession::run_pipeline, (s, job, heard, ms, saved), r),
        heard is Ok ==> call_ensures(finalize_text, (heard->Ok_0, job.policy.language), formed),
    ensures
        ({
            let spoken = heard is Ok && heard->Ok_0@.len() > 0;
            &&& r.1 is Idle <==> !spoken
            &&& !spoken ==> final(s).ps.sm@ is Idle && final(s).ps.cancel_token is None
            &&& heard is Ok ==> acts(r.0@)[0] == Act::Emit(
                "transcription-complete"@,
                crate::commands::Content::Text(heard->Ok_0@),
            )
            &&& heard is Err ==> acts(r.0@)[0] == Act::Emit(
                "speech-error"@,
                crate::commands::Content::Text(heard->Err_0@),
            )
            &&& r.1 is Correct <==> spoken && job.policy.llm_enabled
            &&& r.1 matches PipelineNext::Correct(j) ==> j.transcription == heard->Ok_0
                && j.save_result == saved && j.review == job.review && j.policy == job.policy
                && (old(s).ps.sm@ is Transcribing ==> final(s).ps.sm@ is LLMRefining)
            &&& r.1 matches PipelineNext::Deliver(j, text) ==> j.transcription == heard->Ok_0
                && text@ == formed@ && j.save_result == saved && j.review == job.review && j.policy
                == job.policy && final(s).ps == old(s).ps
            &&& r.1 matches PipelineNext::Correct(j) ==> job.perf.transcription_ms is None
                ==> j.perf.transcription_ms == Some(ms)
            &&& r.1 matches PipelineNext::Deliver(j, _) ==> job.perf.transcription_ms is None
                ==> j.perf.transcription_ms == Some(ms)
        }),
{
    if heard is Ok && heard->Ok_0@.len() > 0 {
        assert(acts(r.0@).take(1)[0] == acts(r.0@)[0]);
    }
}

/// Realtime text is delivered without transcribing the recording again.
pub proof fn realtime_text_is_delivered_as_it_is(
    s: &mut RecordingSession,
    job: PipelineJob,
    r: (Vec<Action>, PipelineNext),
    formed: String,
)
    requires
        call_ensures(RecordingSession::run_realtime_fast_path, (s, job), r),
        call_ensures(finalize_text, (job.transcription, job.policy.language), formed),
    ensures
        r.1 is Correct <==> job.policy.llm_enabled,
        r.1 is Deliver <==> !job.policy.llm_enabled,
        r.1 matches PipelineNext::Correct(j) ==> j.transcription == job.transcription && j.policy
            == job.policy && (old(s).ps.sm@ is Transcribing ==> final(s).ps.sm@ is LLMRefining),
        r.1 matches PipelineNext::Deliver(j, text) ==> j.transcription == job.transcription && text@
            == formed@,
{
}

/// The corrected text is delivered in its final form, and the transcription where the correction
/// failed; the transcription itself stays as it was heard.
pub proof fn a_failed_correction_leaves_the_transcription(
    s: &mut RecordingSession,
    job: PipelineJob,
    reply: Result<String, AppError>,
    llm_ms: u64,
    r: (Vec<Action>, PipelineJob, String),
    formed: String,
)
    requires
        call_ensures(RecordingSession::on_corrected, (s, job, reply, llm_ms), r),
        call_ensures(
            finalize_text,
            (
                if reply is Ok {
                    reply->Ok_0
                } else {
                    job.transcription
                },
                job.policy.language,
            ),
            formed,
        ),
    ensures
        *final(s) == *old(s),
        r.2@ == formed@,
        r.1.transcription == job.transcription && r.1.save_result == job.save_result && r.1.review
            == job.review && r.1.policy == job.policy,
        r.1.perf.llm_correction_ms == Some(llm_ms),
        acts(r.0@).len() == 1,
        reply is Ok ==> acts(r.0@)[0] == Act::Emit(
            "llm-complete"@,
            crate::commands::Content::Text(reply->Ok_0@),
        ),
        reply is Err ==> (acts(r.0@)[0] matches Act::Emit(name, _) && name == "llm-error"@),
{
}

/// The text of a job is pasted at once, or shown for review where that is asked for: in the window
/// that is there, or in one that is shown now, in front of the window that has the focus.
pub proof fn a_text_is_reviewed_where_that_is_asked_for(
    s: &mut RecordingSession,
    job: PipelineJob,
    text: String,
    foreground: isize,
    r: (Vec<Action>, DeliverStep),
)
    requires
        call_ensures(RecordingSession::deliver, (s, job, text, foreground), r),
        (job.policy.llm_enabled && old(s).ps.sm@ is LLMRefining) || (!job.policy.llm_enabled
            && old(s).ps.sm@ is Transcribing),
    ensures
        r.1 is AwaitPaste <==> !job.review,
        !job.review ==> final(s).ps.sm@ is Injecting && acts(r.0@) == seq![
            Act::SaveAndInject(text@),
        ],
        r.1 matches DeliverStep::AwaitPaste(c) ==> c.text == text && c.transcription
            == job.transcription && c.save_result == job.save_result && c.llm_enabled
            == job.policy.llm_enabled && c.perf == job.perf && c.t_press_for_e2e
            == job.t_press_for_e2e,
        job.review ==> final(s).ps.sm@ is Reviewing && final(s).ps.review.text == Some(text)
            && acts(r.0@)[0] == Act::SaveClipboard,
        job.review && old(s).ps.review.shown_on_press ==> r.1 is Settled && acts(r.0@).last()
            == Act::EmitReviewFinalText(text@) && final(s).ps.cancel_token is None,
        job.review && old(s).ps.review.shown_on_press && job.save_result is Some ==> {
            let note = final(s).ps.review.data_saving;
            &&& note is Some
            &&& note->0.json_path == job.save_result->0.json_path
            &&& note->0.raw_transcription == job.transcription
            &&& note->0.llm_text == (if job.policy.llm_enabled {
                Some(text)
            } else {
                None
            })
        },
        job.review && job.save_result is None ==> final(s).ps.review.data_saving
            == old(s).ps.review.data_saving,
        job.review && !old(s).ps.review.shown_on_press ==> r.1 is AwaitWindow && acts(r.0@).last()
            == Act::ShowReview && final(s).ps.review.foreground_hwnd == Some(foreground),
        r.1 matches DeliverStep::AwaitWindow(p) ==> p.final_text == text && (p.review_data is Some
            <==> job.save_result is Some) && (job.save_result is Some ==> p.review_data->0.json_path
            == job.save_result->0.json_path && p.review_data->0.raw_transcription
            == job.transcription && (p.review_data->0.llm_text is Some
            <==> job.policy.llm_enabled)),
{
}

/// Where the review window is not found, the text is pasted at once.
pub proof fn a_missing_review_window_means_a_paste(
    ps: &mut PipelineState,
    pending: PendingShow,
    found: bool,
    v: Vec<Action>,
)
    requires
        call_ensures(review_window_shown, (ps, pending, found), v),
    ensures
        final(ps).cancel_token is None,
        found ==> v@.len() == 0 && final(ps).sm == old(ps).sm && (pending.review_data is Some
            ==> final(ps).review.data_saving == pending.review_data),
        !found ==> acts(v@).len() == 4 && acts(v@)[0] == Act::SaveClipboard && acts(v@)[1]
            == Act::InjectText(pending.final_text@) && acts(v@)[3] == Act::HideFloating,
{
    assert(acts(v@).len() == v@.len());
}

/// The escape key cancels what is being transcribed or refined, and nothing else: the token is set,
/// its work is stopped, the user is told, and the machine is at rest.
pub proof fn escape_cancels_what_is_being_transcribed(
    ps: &mut PipelineState,
    r: (Vec<Action>, bool),
)
    requires
        call_ensures(cancel_active_pipeline, (ps,), r),
    ensures
        r.1 <==> old(ps).sm@ is Transcribing || old(ps).sm@ is LLMRefining,
        !r.1 ==> r.0@.len() == 0 && final(ps).sm@ == old(ps).sm@ && final(ps).cancel_token
            == old(ps).cancel_token,
        r.1 ==> final(ps).sm@ is Idle,
        r.1 && old(ps).cancel_token is Some ==> final(ps).cancel_token is Some
            && final(ps).cancel_token->0.cancelled && final(ps).cancel_token->0.id
            == old(ps).cancel_token->0.id && acts(r.0@)[0] == Act::CancelDelivery(
            old(ps).cancel_token->0.id,
        ),
        r.1 ==> acts(r.0@).contains(Act::HideFloating) && acts(r.0@).last() == Act::Emit(
            "pipeline-cancelled"@,
            crate::commands::Content::Null,
        ),
{
    assert(acts(r.0@).len() == r.0@.len());
    if r.1 {
        let told = acts(r.0@);
        assert(told[told.len() - 2] == Act::HideFloating);
    }
}

/// A client is renewed where the address, the key or the model has changed, and kept otherwise. The
/// address and the model are those of the session, the key is the current one.
pub proof fn a_correction_asks_the_right_client(
    ps: &mut PipelineState,
    policy: SessionPolicy,
    v: Vec<Action>,
)
    requires
        call_ensures(resolve_llm_text, (ps, &policy), v),
    ensures
        acts(v@) == seq![Act::Emit("llm-refining"@, crate::commands::Content::Null)],
        old(ps).sm@ is Transcribing ==> final(ps).sm@ is LLMRefining,
        !(old(ps).sm@ is Transcribing) ==> final(ps).sm@ == old(ps).sm@,
        final(ps).cached_llm is Some,
        final(ps).cached_llm->0.api_url@ == policy.llm_api_url@,
        final(ps).cached_llm->0.api_key@ == old(ps).config_cache@.llm_api_key@,
        final(ps).cached_llm->0.model@ == policy.llm_api_model@,
{
}

/// A reset leaves the machine at rest and hides what was shown; a delivery that died is told too.
pub proof fn a_reset_hides_what_was_shown(
    ps: &mut PipelineState,
    v: Vec<Action>,
    s: &mut RecordingSession,
    w: Vec<Action>,
)
    requires
        call_ensures(reset_to_idle, (ps,), v),
        call_ensures(RecordingSession::recover, (s,), w),
    ensures
        final(ps).sm@ is Idle && !final(ps).review.shown_on_press,
        old(ps).review.shown_on_press ==> acts(v@) == seq![Act::HideFloating, Act::HideReview],
        !old(ps).review.shown_on_press ==> acts(v@) == seq![Act::HideFloating],
        final(s).ps.sm@ is Idle && final(s).ps.cancel_token is None,
        acts(w@).len() == 3 && acts(w@)[0] == Act::HideFloating && acts(w@)[1]
            == Act::RestoreClipboardIfSaved && (acts(w@)[2] matches Act::Emit(name, _) && name
            == "speech-error"@),
{
}

/// What the engine heard is announced and goes on; what went wrong is announced, leaves no text, and
/// leads back to rest.
pub proof fn what_was_heard_is_announced(
    ps: &mut PipelineState,
    heard: Result<String, String>,
    r: (Vec<Action>, String),
)
    requires
        call_ensures(transcribe_and_save, (ps, heard), r),
    ensures
        heard matches Ok(text) ==> r.1 == text && *final(ps) == *old(ps) && acts(r.0@) == seq![
            Act::Emit("transcription-complete"@, crate::commands::Content::Text(text@)),
        ],
        heard matches Err(e) ==> r.1@.len() == 0 && final(ps).sm@ is Idle && acts(r.0@)[0]
            == Act::Emit("speech-error"@, crate::commands::Content::Text(e@)),
{
}

/// A text that is not reviewed is pasted as it is, with all that is known of its recording.
pub proof fn a_direct_delivery_pastes_the_text(
    ps: &mut PipelineState,
    job: PipelineJob,
    text: String,
    r: (Vec<Action>, InjectionContext),
)
    requires
        call_ensures(deliver_direct, (ps, job, text), r),
    ensures
        acts(r.0@) == seq![Act::SaveAndInject(text@)],
        r.1.text == text && r.1.transcription == job.transcription && r.1.save_result
            == job.save_result && r.1.llm_enabled == job.policy.llm_enabled && r.1.perf == job.perf
            && r.1.t_press_for_e2e == job.t_press_for_e2e,
        final(ps).review == old(ps).review && final(ps).cancel_token == old(ps).cancel_token,
        job.policy.llm_enabled && old(ps).sm@ is LLMRefining ==> final(ps).sm@ is Injecting,
        !job.policy.llm_enabled && old(ps).sm@ is Transcribing ==> final(ps).sm@ is Injecting,
{
}

} // verus!
