//! The state that the steps of a dictation share.

use crate::commands::actions::{acts, nothing, queue, Act, Action};
use crate::commands::record_only_session::ActiveRecordOnly;
use crate::commands::review::PendingReview;
use crate::config::cache::ConfigCache;
use crate::llm::LLMClient;
use crate::perf::PerfHistory;
use crate::realtime::RealtimeTranscriber;
use crate::state;
use crate::state::{StateMachine, StateTag, Verb};
use vstd::prelude::*;

verus! {

/// The cancellation token of work that goes on elsewhere, known by its number. The host tells the
/// work to stop when it is asked to cancel that number.
#[derive(Debug, Clone, Copy, PartialEq, Eq, Structural)]
pub struct CancelToken {
    pub id: u64,
    pub cancelled: bool,
}

impl CancelToken {
    /// A token that nobody has cancelled.
    pub fn new(id: u64) -> (t: Self)
        ensures
            t == (CancelToken { id, cancelled: false }),
    {
        CancelToken { id, cancelled: false }
    }
}

/// Shared state of the hotkey pipeline.
pub struct PipelineState {
    pub sm: StateMachine,
    pub review: PendingReview,
    pub config_cache: ConfigCache,
    pub perf_history: PerfHistory,
    /// The client of the last correction, kept for as long as the configuration matches it.
    pub cached_llm: Option<LLMClient>,
    /// The running realtime transcription, if any.
    pub realtime: Option<RealtimeTranscriber>,
    /// The record-only session that is capturing, if any.
    pub record_only: Option<ActiveRecordOnly>,
    /// Cancellation token of the delivery in flight: there is one from the end of the recording
    /// until the text is delivered, or not.
    pub cancel_token: Option<CancelToken>,
}

/// The state before and after a transition was asked for: only the state machine may move, and
/// the answer says whether it did.
pub open spec fn stepped(
    before: PipelineState,
    after: PipelineState,
    verb: Verb,
    answer: bool,
) -> bool {
    &&& after == (PipelineState { sm: after.sm, ..before })
    &&& after.sm@ == state::after(before.sm@, verb)
    &&& answer == state::allowed(before.sm@, verb)
}

/// What stopping a recording asks of the host.
pub open spec fn stop_acts(realtime: bool) -> Seq<Act> {
    if realtime {
        seq![Act::StopCapture, Act::StopRealtime]
    } else {
        seq![Act::StopCapture]
    }
}

/// The text that a realtime transcription has gathered, if it has gathered any.
pub open spec fn gathered(realtime: Option<RealtimeTranscriber>) -> Option<Seq<char>> {
    match realtime {
        Some(rt) => if rt.accumulated@.len() == 0 {
            None
        } else {
            Some(rt.accumulated@)
        },
        None => None,
    }
}

impl PipelineState {
    /// Audio buffer capacity in samples: 60 seconds at 48 kHz.
    pub const AUDIO_BUFFER_CAPACITY: usize = 2_880_000;

    /// The parts are in order.
    pub open spec fn wf(self) -> bool {
        self.perf_history.wf()
    }

    /// A pipeline at rest.
    pub fn new(config_cache: ConfigCache, perf_history: PerfHistory) -> (ps: Self)
        ensures
            ps == (PipelineState {
                sm: ps.sm,
                review: crate::commands::review::no_review(),
                config_cache,
                perf_history,
                cached_llm: None,
                realtime: None,
                record_only: None,
                cancel_token: None,
            }),
            ps.sm@ == StateTag::Idle,
    {
        PipelineState {
            sm: StateMachine::new(),
            review: PendingReview::new(),
            config_cache,
            perf_history,
            cached_llm: None,
            realtime: None,
            record_only: None,
            cancel_token: None,
        }
    }

    /// Stop audio capture and the realtime transcription; hands out what the latter has gathered.
    pub fn stop_recording_resources(&mut self) -> (r: (Vec<Action>, Option<String>))
        ensures
            *final(self) == (PipelineState { realtime: None, ..*old(self) }),
            acts(r.0@) == stop_acts(old(self).realtime is Some),
            crate::data_saving::text_of(r.1) == gathered(old(self).realtime),
    {
        let mut v = nothing();
        queue(&mut v, Action::StopCapture);
        let mut text: Option<String> = None;
        if let Some(rt) = self.realtime.take() {
            let mut rt = rt;
            rt.stop();
            queue(&mut v, Action::StopRealtime);
            let gathered = rt.take_accumulated();
            if !gathered.as_str().is_empty() {
                text = Some(gathered);
            }
        }
        assert(acts(v@) =~= stop_acts(old(self).realtime is Some));
        (v, text)
    }

    /// Stop audio capture and the realtime transcription, dropping what the latter has gathered.
    pub fn stop_recording_resources_graceful(&mut self) -> (v: Vec<Action>)
        ensures
            *final(self) == (PipelineState { realtime: None, ..*old(self) }),
            acts(v@) == stop_acts(old(self).realtime is Some),
    {
        let mut v = nothing();
        queue(&mut v, Action::StopCapture);
        if let Some(rt) = self.realtime.take() {
            let mut rt = rt;
            rt.stop();
            queue(&mut v, Action::StopRealtime);
        }
        assert(acts(v@) =~= stop_acts(old(self).realtime is Some));
        v
    }

    /// Install the active record-only session.
    pub fn set_record_only_session(&mut self, session: ActiveRecordOnly)
        ensures
            *final(self) == (PipelineState { record_only: Some(session), ..*old(self) }),
    {
        self.record_only = Some(session);
    }

    /// Take the active record-only session.
    pub fn take_record_only_session(&mut self) -> (s: Option<ActiveRecordOnly>)
        ensures
            s == old(self).record_only,
            *final(self) == (PipelineState { record_only: None, ..*old(self) }),
    {
        self.record_only.take()
    }

    /// Install the cancellation token of the delivery in flight.
    pub fn set_cancel_token(&mut self, token: CancelToken)
        ensures
            *final(self) == (PipelineState { cancel_token: Some(token), ..*old(self) }),
    {
        self.cancel_token = Some(token);
    }

    /// Take the cancellation token out of the slot (once).
    pub fn take_cancel_token(&mut self) -> (t: Option<CancelToken>)
        ensures
            t == old(self).cancel_token,
            *final(self) == (PipelineState { cancel_token: None, ..*old(self) }),
    {
        self.cancel_token.take()
    }

    /// The current token, which stays in its slot. An empty slot yields a fresh token, numbered 0,
    /// that nobody has cancelled.
    pub fn cancel_token_snapshot(&self) -> (t: CancelToken)
        ensures
            t == (match self.cancel_token {
                Some(token) => token,
                None => CancelToken { id: 0, cancelled: false },
            }),
    {
        match self.cancel_token {
            Some(token) => token,
            None => CancelToken::new(0),
        }
    }

    /// The current state.
    pub fn sm_state(&self) -> (tag: StateTag)
        ensures
            tag == self.sm@,
    {
        self.sm.state()
    }

    /// Idle to Recording.
    pub fn sm_start_recording(&mut self) -> (r: bool)
        ensures
            stepped(*old(self), *final(self), Verb::StartRecording, r),
    {
        self.sm.start_recording().is_ok()
    }

    /// Recording to Transcribing.
    pub fn sm_stop_recording(&mut self) -> (r: bool)
        ensures
            stepped(*old(self), *final(self), Verb::StopRecording, r),
    {
        self.sm.stop_recording().is_ok()
    }

    /// Transcribing to LLMRefining.
    pub fn sm_start_llm_refining(&mut self) -> (r: bool)
        ensures
            stepped(*old(self), *final(self), Verb::StartLlmRefining, r),
    {
        self.sm.start_llm_refining().is_ok()
    }

    /// Transcribing to Injecting.
    pub fn sm_transcribing_to_injecting(&mut self) -> (r: bool)
        ensures
            stepped(*old(self), *final(self), Verb::TranscribingToInjecting, r),
    {
        self.sm.transcribing_to_injecting().is_ok()
    }

    /// LLMRefining to Injecting.
    pub fn sm_llm_to_injecting(&mut self) -> (r: bool)
        ensures
            stepped(*old(self), *final(self), Verb::LlmToInjecting, r),
    {
        self.sm.llm_to_injecting().is_ok()
    }

    /// Transcribing to Reviewing.
    pub fn sm_transcribing_to_reviewing(&mut self) -> (r: bool)
        ensures
            stepped(*old(self), *final(self), Verb::TranscribingToReviewing, r),
    {
        self.sm.transcribing_to_reviewing().is_ok()
    }

    /// LLMRefining to Reviewing.
    pub fn sm_llm_to_reviewing(&mut self) -> (r: bool)
        ensures
            stepped(*old(self), *final(self), Verb::LlmToReviewing, r),
    {
        self.sm.llm_to_reviewing().is_ok()
    }

    /// Reviewing to Injecting.
    pub fn sm_reviewing_to_injecting(&mut self) -> (r: bool)
        ensures
            stepped(*old(self), *final(self), Verb::ReviewingToInjecting, r),
    {
        self.sm.reviewing_to_injecting().is_ok()
    }

    /// Reviewing to Idle.
    pub fn sm_cancel_reviewing(&mut self) -> (r: bool)
        ensures
            stepped(*old(self), *final(self), Verb::CancelReviewing, r),
    {
        self.sm.cancel_reviewing().is_ok()
    }

    /// Injecting to Idle.
    pub fn sm_finish_injecting(&mut self) -> (r: bool)
        ensures
            stepped(*old(self), *final(self), Verb::FinishInjecting, r),
    {
        self.sm.finish_injecting().is_ok()
    }

    /// Transcribing or LLMRefining to Idle; whether there was something to cancel.
    pub fn sm_cancel_transcribing_or_llm(&mut self) -> (r: bool)
        ensures
            stepped(*old(self), *final(self), Verb::CancelTranscribingOrLlm, r),
    {
        self.sm.cancel_transcribing_or_llm().is_ok()
    }

    /// Idle to RecordOnly.
    pub fn sm_start_record_only(&mut self) -> (r: bool)
        ensures
            stepped(*old(self), *final(self), Verb::StartRecordOnly, r),
    {
        self.sm.start_record_only().is_ok()
    }

    /// RecordOnly to Idle.
    pub fn sm_finish_record_only(&mut self) -> (r: bool)
        ensures
            stepped(*old(self), *final(self), Verb::FinishRecordOnly, r),
    {
        self.sm.finish_record_only().is_ok()
    }

    /// Back to Idle, whatever the state.
    pub fn sm_reset(&mut self)
        ensures
            *final(self) == (PipelineState { sm: final(self).sm, ..*old(self) }),
            final(self).sm@ == StateTag::Idle,
    {
        self.sm.reset();
    }
}

/// A recording begins at rest. Nothing but the state moves, and that only where the answer says so.
pub proof fn a_recording_begins_at_rest(ps: &mut PipelineState, r: bool)
    requires
        call_ensures(PipelineState::sm_start_recording, (ps,), r),
    ensures
        r <==> old(ps).sm@ is Idle,
        r ==> final(ps).sm@ is Recording,
        !r ==> final(ps).sm@ == old(ps).sm@,
        *final(ps) == (PipelineState { sm: final(ps).sm, ..*old(ps) }),
{
}

/// A recording is stopped while it runs. Nothing but the state moves, and that only where the answer says so.
pub proof fn a_recording_is_stopped_while_it_runs(ps: &mut PipelineState, r: bool)
    requires
        call_ensures(PipelineState::sm_stop_recording, (ps,), r),
    ensures
        r <==> old(ps).sm@ is Recording,
        r ==> final(ps).sm@ is Transcribing,
        !r ==> final(ps).sm@ == old(ps).sm@,
        *final(ps) == (PipelineState { sm: final(ps).sm, ..*old(ps) }),
{
}

/// Refining follows transcribing. Nothing but the state moves, and that only where the answer says so.
pub proof fn refining_follows_transcribing(ps: &mut PipelineState, r: bool)
    requires
        call_ensures(PipelineState::sm_start_llm_refining, (ps,), r),
    ensures
        r <==> old(ps).sm@ is Transcribing,
        r ==> final(ps).sm@ is LLMRefining,
        !r ==> final(ps).sm@ == old(ps).sm@,
        *final(ps) == (PipelineState { sm: final(ps).sm, ..*old(ps) }),
{
}

/// Pasting may follow transcribing. Nothing but the state moves, and that only where the answer says so.
pub proof fn pasting_may_follow_transcribing(ps: &mut PipelineState, r: bool)
    requires
        call_ensures(PipelineState::sm_transcribing_to_injecting, (ps,), r),
    ensures
        r <==> old(ps).sm@ is Transcribing,
        r ==> final(ps).sm@ is Injecting,
        !r ==> final(ps).sm@ == old(ps).sm@,
        *final(ps) == (PipelineState { sm: final(ps).sm, ..*old(ps) }),
{
}

/// Pasting may follow refining. Nothing but the state moves, and that only where the answer says so.
pub proof fn pasting_may_follow_refining(ps: &mut PipelineState, r: bool)
    requires
        call_ensures(PipelineState::sm_llm_to_injecting, (ps,), r),
    ensures
        r <==> old(ps).sm@ is LLMRefining,
        r ==> final(ps).sm@ is Injecting,
        !r ==> final(ps).sm@ == old(ps).sm@,
        *final(ps) == (PipelineState { sm: final(ps).sm, ..*old(ps) }),
{
}

/// Reviewing may follow transcribing. Nothing but the state moves, and that only where the answer says so.
pub proof fn reviewing_may_follow_transcribing(ps: &mut PipelineState, r: bool)
    requires
        call_ensures(PipelineState::sm_transcribing_to_reviewing, (ps,), r),
    ensures
        r <==> old(ps).sm@ is Transcribing,
        r ==> final(ps).sm@ is Reviewing,
        !r ==> final(ps).sm@ == old(ps).sm@,
        *final(ps) == (PipelineState { sm: final(ps).sm, ..*old(ps) }),
{
}

/// Reviewing may follow refining. Nothing but the state moves, and that only where the answer says so.
pub proof fn reviewing_may_follow_refining(ps: &mut PipelineState, r: bool)
    requires
        call_ensures(PipelineState::sm_llm_to_reviewing, (ps,), r),
    ensures
        r <==> old(ps).sm@ is LLMRefining,
        r ==> final(ps).sm@ is Reviewing,
        !r ==> final(ps).sm@ == old(ps).sm@,
        *final(ps) == (PipelineState { sm: final(ps).sm, ..*old(ps) }),
{
}

/// Pasting may follow reviewing. Nothing but the state moves, and that only where the answer says so.
pub proof fn pasting_may_follow_reviewing(ps: &mut PipelineState, r: bool)
    requires
        call_ensures(PipelineState::sm_reviewing_to_injecting, (ps,), r),
    ensures
        r <==> old(ps).sm@ is Reviewing,
        r ==> final(ps).sm@ is Injecting,
        !r ==> final(ps).sm@ == old(ps).sm@,
        *final(ps) == (PipelineState { sm: final(ps).sm, ..*old(ps) }),
{
}

/// Reviewing may be given up. Nothing but the state moves, and that only where the answer says so.
pub proof fn reviewing_may_be_given_up(ps: &mut PipelineState, r: bool)
    requires
        call_ensures(PipelineState::sm_cancel_reviewing, (ps,), r),
    ensures
        r <==> old(ps).sm@ is Reviewing,
        r ==> final(ps).sm@ is Idle,
        !r ==> final(ps).sm@ == old(ps).sm@,
        *final(ps) == (PipelineState { sm: final(ps).sm, ..*old(ps) }),
{
}

/// Pasting ends the cycle. Nothing but the state moves, and that only where the answer says so.
pub proof fn pasting_ends_the_cycle(ps: &mut PipelineState, r: bool)
    requires
        call_ensures(PipelineState::sm_finish_injecting, (ps,), r),
    ensures
        r <==> old(ps).sm@ is Injecting,
        r ==> final(ps).sm@ is Idle,
        !r ==> final(ps).sm@ == old(ps).sm@,
        *final(ps) == (PipelineState { sm: final(ps).sm, ..*old(ps) }),
{
}

/// Transcribing and refining may be given up. Nothing but the state moves, and that only where the answer says so.
pub proof fn transcribing_and_refining_may_be_given_up(ps: &mut PipelineState, r: bool)
    requires
        call_ensures(PipelineState::sm_cancel_transcribing_or_llm, (ps,), r),
    ensures
        r <==> old(ps).sm@ is Transcribing || old(ps).sm@ is LLMRefining,
        r ==> final(ps).sm@ is Idle,
        !r ==> final(ps).sm@ == old(ps).sm@,
        *final(ps) == (PipelineState { sm: final(ps).sm, ..*old(ps) }),
{
}

/// Record-only mode begins at rest. Nothing but the state moves, and that only where the answer says so.
pub proof fn record_only_begins_at_rest(ps: &mut PipelineState, r: bool)
    requires
        call_ensures(PipelineState::sm_start_record_only, (ps,), r),
    ensures
        r <==> old(ps).sm@ is Idle,
        r ==> final(ps).sm@ is RecordOnly,
        !r ==> final(ps).sm@ == old(ps).sm@,
        *final(ps) == (PipelineState { sm: final(ps).sm, ..*old(ps) }),
{
}

/// Record-only mode ends where it is on. Nothing but the state moves, and that only where the answer says so.
pub proof fn record_only_ends_where_it_is_on(ps: &mut PipelineState, r: bool)
    requires
        call_ensures(PipelineState::sm_finish_record_only, (ps,), r),
    ensures
        r <==> old(ps).sm@ is RecordOnly,
        r ==> final(ps).sm@ is Idle,
        !r ==> final(ps).sm@ == old(ps).sm@,
        *final(ps) == (PipelineState { sm: final(ps).sm, ..*old(ps) }),
{
}

/// Stopping a recording stops the capture, and the realtime loop where one runs, whose text is handed
/// out unless there is none or it is to be dropped.
pub proof fn stopping_hands_out_the_realtime_text(
    ps: &mut PipelineState,
    r: (Vec<Action>, Option<String>),
    other: &mut PipelineState,
    v: Vec<Action>,
)
    requires
        call_ensures(PipelineState::stop_recording_resources, (ps,), r),
        call_ensures(PipelineState::stop_recording_resources_graceful, (other,), v),
    ensures
        old(ps).realtime is Some ==> acts(r.0@) == seq![Act::StopCapture, Act::StopRealtime],
        old(ps).realtime is None ==> acts(r.0@) == seq![Act::StopCapture],
        r.1 is Some <==> old(ps).realtime is Some && old(ps).realtime->0.accumulated@.len() > 0,
        r.1 is Some ==> r.1->0@ == old(ps).realtime->0.accumulated@,
        *final(ps) == (PipelineState { realtime: None, ..*old(ps) }),
        old(other).realtime is Some ==> acts(v@) == seq![Act::StopCapture, Act::StopRealtime],
        old(other).realtime is None ==> acts(v@) == seq![Act::StopCapture],
        *final(other) == (PipelineState { realtime: None, ..*old(other) }),
{
}

/// A token that was installed can be looked at as often as needed and taken out once.
pub proof fn a_token_is_taken_once(
    ps: &mut PipelineState,
    token: CancelToken,
    done: (),
    seen: CancelToken,
    p: &mut PipelineState,
    first: Option<CancelToken>,
    q: &mut PipelineState,
    second: Option<CancelToken>,
    none: CancelToken,
)
    requires
        call_ensures(PipelineState::set_cancel_token, (ps, token), done),
        call_ensures(PipelineState::cancel_token_snapshot, (&*final(ps),), seen),
        *old(p) == *final(ps),
        call_ensures(PipelineState::take_cancel_token, (p,), first),
        *old(q) == *final(p),
        call_ensures(PipelineState::take_cancel_token, (q,), second),
        call_ensures(PipelineState::cancel_token_snapshot, (&*final(q),), none),
    ensures
        seen == token,
        first == Some(token),
        second is None,
        !none.cancelled,
        *final(q) == (PipelineState { cancel_token: None, ..*old(ps) }),
{
}

/// A record-only session that was installed is taken once.
pub proof fn a_record_only_session_is_taken_once(
    ps: &mut PipelineState,
    session: ActiveRecordOnly,
    done: (),
    p: &mut PipelineState,
    first: Option<ActiveRecordOnly>,
    q: &mut PipelineState,
    second: Option<ActiveRecordOnly>,
)
    requires
        call_ensures(PipelineState::set_record_only_session, (ps, session), done),
        *old(p) == *final(ps),
        call_ensures(PipelineState::take_record_only_session, (p,), first),
        *old(q) == *final(p),
        call_ensures(PipelineState::take_record_only_session, (q,), second),
    ensures
        first == Some(session),
        second is None,
        *final(q) == (PipelineState { record_only: None, ..*old(ps) }),
{
}

} // verus!
