//! Application state machine: a state tag with guarded transitions.
//!
//! ```text
//! Idle → Recording → Transcribing → LLMRefining → Injecting → Idle
//!                              ↘ Reviewing ↗         ↗
//!                                   ↓      (review disabled)
//!                              Injecting → Idle
//! Idle → RecordOnly → Idle
//! * → Idle  (error/cancel)
//! ```

use vstd::prelude::*;

verus! {

/// Lightweight state tag.
#[derive(Debug, Clone, Copy, PartialEq, Eq, Structural)]
pub enum StateTag {
    /// No recording in progress.
    Idle,
    /// Hotkey pressed, audio is being captured.
    Recording,
    /// Hotkey released, the speech engine is transcribing.
    Transcribing,
    /// The language model is refining the transcribed text.
    LLMRefining,
    /// Transcription done, waiting for the user to review the text.
    Reviewing,
    /// Text is ready, injecting via clipboard paste.
    Injecting,
    /// Record-only hotkey held, audio goes to disk without transcription.
    RecordOnly,
}

/// The name of a state, as error messages show it.
pub open spec fn tag_name(tag: StateTag) -> Seq<char> {
    match tag {
        StateTag::Idle => "Idle"@,
        StateTag::Recording => "Recording"@,
        StateTag::Transcribing => "Transcribing"@,
        StateTag::LLMRefining => "LLMRefining"@,
        StateTag::Reviewing => "Reviewing"@,
        StateTag::Injecting => "Injecting"@,
        StateTag::RecordOnly => "RecordOnly"@,
    }
}

/// Error for invalid state transitions.
#[derive(Debug)]
pub struct TransitionError {
    pub from: String,
    pub to: String,
}

impl TransitionError {
    pub fn to_string(&self) -> (s: String)
        ensures
            s@ == "invalid state transition: "@ + self.from@ + " → "@ + self.to@,
    {
        "invalid state transition: ".to_owned().concat(self.from.as_str()).concat(" → ").concat(
            self.to.as_str(),
        )
    }
}

/// The transitions that the machine offers.
pub enum Verb {
    StartRecording,
    StopRecording,
    StartLlmRefining,
    TranscribingToInjecting,
    LlmToInjecting,
    TranscribingToReviewing,
    LlmToReviewing,
    ReviewingToInjecting,
    CancelReviewing,
    FinishInjecting,
    CancelTranscribingOrLlm,
    StartRecordOnly,
    FinishRecordOnly,
    Reset,
}

/// The state a transition aims at.
pub open spec fn target(verb: Verb) -> StateTag {
    match verb {
        Verb::StartRecording => StateTag::Recording,
        Verb::StopRecording => StateTag::Transcribing,
        Verb::StartLlmRefining => StateTag::LLMRefining,
        Verb::TranscribingToInjecting => StateTag::Injecting,
        Verb::LlmToInjecting => StateTag::Injecting,
        Verb::TranscribingToReviewing => StateTag::Reviewing,
        Verb::LlmToReviewing => StateTag::Reviewing,
        Verb::ReviewingToInjecting => StateTag::Injecting,
        Verb::CancelReviewing => StateTag::Idle,
        Verb::FinishInjecting => StateTag::Idle,
        Verb::CancelTranscribingOrLlm => StateTag::Idle,
        Verb::StartRecordOnly => StateTag::RecordOnly,
        Verb::FinishRecordOnly => StateTag::Idle,
        Verb::Reset => StateTag::Idle,
    }
}

/// Whether a transition is legal in a state.
pub open spec fn allowed(tag: StateTag, verb: Verb) -> bool {
    match verb {
        Verb::StartRecording => tag == StateTag::Idle,
        Verb::StopRecording => tag == StateTag::Recording,
        Verb::StartLlmRefining => tag == StateTag::Transcribing,
        Verb::TranscribingToInjecting => tag == StateTag::Transcribing,
        Verb::LlmToInjecting => tag == StateTag::LLMRefining,
        Verb::TranscribingToReviewing => tag == StateTag::Transcribing,
        Verb::LlmToReviewing => tag == StateTag::LLMRefining,
        Verb::ReviewingToInjecting => tag == StateTag::Reviewing,
        Verb::CancelReviewing => tag == StateTag::Reviewing,
        Verb::FinishInjecting => tag == StateTag::Injecting,
        Verb::CancelTranscribingOrLlm => tag == StateTag::Transcribing || tag
            == StateTag::LLMRefining,
        Verb::StartRecordOnly => tag == StateTag::Idle,
        Verb::FinishRecordOnly => tag == StateTag::RecordOnly,
        Verb::Reset => true,
    }
}

/// The state after a transition was asked for: its target where it is legal, else unchanged.
pub open spec fn after(tag: StateTag, verb: Verb) -> StateTag {
    if allowed(tag, verb) {
        target(verb)
    } else {
        tag
    }
}

/// The state after a series of transitions was asked for.
pub open spec fn run(tag: StateTag, verbs: Seq<Verb>) -> StateTag
    decreases verbs.len(),
{
    if verbs.len() == 0 {
        tag
    } else {
        after(run(tag, verbs.drop_last()), verbs.last())
    }
}

/// What asking for `verb` in state `tag` answers: success where the transition is legal, and
/// otherwise an error that names the state it was refused in and the state it aimed at.
pub open spec fn answers(tag: StateTag, verb: Verb, r: Result<(), TransitionError>) -> bool {
    match r {
        Ok(_) => allowed(tag, verb),
        Err(e) => !allowed(tag, verb) && e.from@ == tag_name(tag) && e.to@ == tag_name(
            target(verb),
        ),
    }
}

/// Wraps a state tag with controlled transitions.
pub struct StateMachine {
    tag: StateTag,
}

impl View for StateMachine {
    type V = StateTag;

    closed spec fn view(&self) -> StateTag {
        self.tag
    }
}

impl StateMachine {
    pub fn new() -> (m: Self)
        ensures
            m@ == StateTag::Idle,
    {
        StateMachine { tag: StateTag::Idle }
    }

    pub fn state(&self) -> (tag: StateTag)
        ensures
            tag == self@,
    {
        self.tag
    }

    /// Transition to Recording (from Idle only).
    pub fn start_recording(&mut self) -> (r: Result<(), TransitionError>)
        ensures
            answers(old(self)@, Verb::StartRecording, r),
            final(self)@ == after(old(self)@, Verb::StartRecording),
    {
        match self.tag {
            StateTag::Idle => {
                self.tag = StateTag::Recording;
                Ok(())
            },
            _ => Err(self.refusal("Recording")),
        }
    }

    /// Transition to Transcribing (from Recording only).
    pub fn stop_recording(&mut self) -> (r: Result<(), TransitionError>)
        ensures
            answers(old(self)@, Verb::StopRecording, r),
            final(self)@ == after(old(self)@, Verb::StopRecording),
    {
        match self.tag {
            StateTag::Recording => {
                self.tag = StateTag::Transcribing;
                Ok(())
            },
            _ => Err(self.refusal("Transcribing")),
        }
    }

    /// Transition from Transcribing to LLMRefining.
    pub fn start_llm_refining(&mut self) -> (r: Result<(), TransitionError>)
        ensures
            answers(old(self)@, Verb::StartLlmRefining, r),
            final(self)@ == after(old(self)@, Verb::StartLlmRefining),
    {
        match self.tag {
            StateTag::Transcribing => {
                self.tag = StateTag::LLMRefining;
                Ok(())
            },
            _ => Err(self.refusal("LLMRefining")),
        }
    }

    /// Transition from Transcribing to Injecting (LLM disabled path).
    pub fn transcribing_to_injecting(&mut self) -> (r: Result<(), TransitionError>)
        ensures
            answers(old(self)@, Verb::TranscribingToInjecting, r),
            final(self)@ == after(old(self)@, Verb::TranscribingToInjecting),
    {
        match self.tag {
            StateTag::Transcribing => {
                self.tag = StateTag::Injecting;
                Ok(())
            },
            _ => Err(self.refusal("Injecting")),
        }
    }

    /// Transition from LLMRefining to Injecting.
    pub fn llm_to_injecting(&mut self) -> (r: Result<(), TransitionError>)
        ensures
            answers(old(self)@, Verb::LlmToInjecting, r),
            final(self)@ == after(old(self)@, Verb::LlmToInjecting),
    {
        match self.tag {
            StateTag::LLMRefining => {
                self.tag = StateTag::Injecting;
                Ok(())
            },
            _ => Err(self.refusal("Injecting")),
        }
    }

    /// Transition from Transcribing to Reviewing.
    pub fn transcribing_to_reviewing(&mut self) -> (r: Result<(), TransitionError>)
        ensures
            answers(old(self)@, Verb::TranscribingToReviewing, r),
            final(self)@ == after(old(self)@, Verb::TranscribingToReviewing),
    {
        match self.tag {
            StateTag::Transcribing => {
                self.tag = StateTag::Reviewing;
                Ok(())
            },
            _ => Err(self.refusal("Reviewing")),
        }
    }

    /// Transition from LLMRefining to Reviewing.
    pub fn llm_to_reviewing(&mut self) -> (r: Result<(), TransitionError>)
        ensures
            answers(old(self)@, Verb::LlmToReviewing, r),
            final(self)@ == after(old(self)@, Verb::LlmToReviewing),
    {
        match self.tag {
            StateTag::LLMRefining => {
                self.tag = StateTag::Reviewing;
                Ok(())
            },
            _ => Err(self.refusal("Reviewing")),
        }
    }

    /// Transition from Reviewing to Injecting (user confirmed).
    pub fn reviewing_to_injecting(&mut self) -> (r: Result<(), TransitionError>)
        ensures
            answers(old(self)@, Verb::ReviewingToInjecting, r),
            final(self)@ == after(old(self)@, Verb::ReviewingToInjecting),
    {
        match self.tag {
            StateTag::Reviewing => {
                self.tag = StateTag::Injecting;
                Ok(())
            },
            _ => Err(self.refusal("Injecting")),
        }
    }

    /// Cancel review and return to Idle (user cancelled).
    pub fn cancel_reviewing(&mut self) -> (r: Result<(), TransitionError>)
        ensures
            answers(old(self)@, Verb::CancelReviewing, r),
            final(self)@ == after(old(self)@, Verb::CancelReviewing),
    {
        match self.tag {
            StateTag::Reviewing => {
                self.tag = StateTag::Idle;
                Ok(())
            },
            _ => Err(self.refusal("Idle")),
        }
    }

    /// Transition from Injecting to Idle.
    pub fn finish_injecting(&mut self) -> (r: Result<(), TransitionError>)
        ensures
            answers(old(self)@, Verb::FinishInjecting, r),
            final(self)@ == after(old(self)@, Verb::FinishInjecting),
    {
        match self.tag {
            StateTag::Injecting => {
                self.tag = StateTag::Idle;
                Ok(())
            },
            _ => Err(self.refusal("Idle")),
        }
    }

    /// Abort a running transcription or refinement (from Transcribing or LLMRefining only).
    pub fn cancel_transcribing_or_llm(&mut self) -> (r: Result<(), TransitionError>)
        ensures
            answers(old(self)@, Verb::CancelTranscribingOrLlm, r),
            final(self)@ == after(old(self)@, Verb::CancelTranscribingOrLlm),
    {
        match self.tag {
            StateTag::Transcribing => {
                self.tag = StateTag::Idle;
                Ok(())
            },
            StateTag::LLMRefining => {
                self.tag = StateTag::Idle;
                Ok(())
            },
            _ => Err(self.refusal("Idle")),
        }
    }

    /// Transition to RecordOnly (from Idle only).
    pub fn start_record_only(&mut self) -> (r: Result<(), TransitionError>)
        ensures
            answers(old(self)@, Verb::StartRecordOnly, r),
            final(self)@ == after(old(self)@, Verb::StartRecordOnly),
    {
        match self.tag {
            StateTag::Idle => {
                self.tag = StateTag::RecordOnly;
                Ok(())
            },
            _ => Err(self.refusal("RecordOnly")),
        }
    }

    /// Transition from RecordOnly to Idle.
    pub fn finish_record_only(&mut self) -> (r: Result<(), TransitionError>)
        ensures
            answers(old(self)@, Verb::FinishRecordOnly, r),
            final(self)@ == after(old(self)@, Verb::FinishRecordOnly),
    {
        match self.tag {
            StateTag::RecordOnly => {
                self.tag = StateTag::Idle;
                Ok(())
            },
            _ => Err(self.refusal("Idle")),
        }
    }

    /// Reset to Idle from any state (error/cancel).
    pub fn reset(&mut self)
        ensures
            final(self)@ == after(old(self)@, Verb::Reset),
    {
        self.tag = StateTag::Idle;
    }

    /// The name of the current state.
    pub fn state_name(&self) -> (s: String)
        ensures
            s@ == tag_name(self@),
    {
        match self.tag {
            StateTag::Idle => "Idle".to_owned(),
            StateTag::Recording => "Recording".to_owned(),
            StateTag::Transcribing => "Transcribing".to_owned(),
            StateTag::LLMRefining => "LLMRefining".to_owned(),
            StateTag::Reviewing => "Reviewing".to_owned(),
            StateTag::Injecting => "Injecting".to_owned(),
            StateTag::RecordOnly => "RecordOnly".to_owned(),
        }
    }

    fn refusal(&self, to: &str) -> (e: TransitionError)
        ensures
            e.from@ == tag_name(self@),
            e.to@ == to@,
    {
        TransitionError { from: self.state_name(), to: to.to_owned() }
    }
}

impl Default for StateMachine {
    fn default() -> (m: Self)
        ensures
            m@ == StateTag::Idle,
    {
        Self::new()
    }
}

/// Every change of state runs along an edge of the diagram in the module documentation.
pub proof fn transitions_follow_the_diagram(tag: StateTag, verb: Verb)
    ensures
        ({
            let next = after(tag, verb);
            ||| next == tag
            ||| next == StateTag::Idle
            ||| tag == StateTag::Idle && next == StateTag::Recording
            ||| tag == StateTag::Recording && next == StateTag::Transcribing
            ||| tag == StateTag::Transcribing && next == StateTag::LLMRefining
            ||| tag == StateTag::Transcribing && next == StateTag::Reviewing
            ||| tag == StateTag::Transcribing && next == StateTag::Injecting
            ||| tag == StateTag::LLMRefining && next == StateTag::Reviewing
            ||| tag == StateTag::LLMRefining && next == StateTag::Injecting
            ||| tag == StateTag::Reviewing && next == StateTag::Injecting
            ||| tag == StateTag::Idle && next == StateTag::RecordOnly
        }),
{
}

/// Dictation and record-only exclude one another: no transition leads from a record-only
/// session into the dictation pipeline or back, except through Idle.
pub proof fn record_only_excludes_dictation(tag: StateTag, verb: Verb)
    ensures
        tag == StateTag::RecordOnly ==> (after(tag, verb) == StateTag::RecordOnly || after(
            tag,
            verb,
        ) == StateTag::Idle),
        after(tag, verb) == StateTag::RecordOnly ==> (tag == StateTag::RecordOnly || tag
            == StateTag::Idle),
{
}

/// Whatever happened before, a reset leads back to Idle, where a recording can start.
pub proof fn reset_always_recovers(tag: StateTag, verbs: Seq<Verb>)
    ensures
        run(tag, verbs.push(Verb::Reset)) == StateTag::Idle,
        allowed(run(tag, verbs.push(Verb::Reset)), Verb::StartRecording),
{
    assert(verbs.push(Verb::Reset).drop_last() =~= verbs);
}

/// Text is injected only after a recording was stopped: a run from Idle that stands in any of
/// the later states holds an accepted stop, after which the machine was never reset to Idle.
pub proof fn injecting_presupposes_a_stopped_recording(verbs: Seq<Verb>)
    requires
        ({
            let tag = run(StateTag::Idle, verbs);
            tag == StateTag::Transcribing || tag == StateTag::LLMRefining || tag
                == StateTag::Reviewing || tag == StateTag::Injecting
        }),
    ensures
        exists|i: int|
            #![trigger verbs[i]]
            0 <= i < verbs.len() && verbs[i] == Verb::StopRecording && run(
                StateTag::Idle,
                verbs.take(i),
            ) == StateTag::Recording && (forall|j: int|
                #![trigger verbs.take(j)]
                i < j <= verbs.len() ==> run(StateTag::Idle, verbs.take(j)) != StateTag::Idle),
    decreases verbs.len(),
{
    let n = verbs.len() as int;
    let before = verbs.drop_last();
    assert(verbs.take(n) =~= verbs);
    assert(before =~= verbs.take(n - 1));
    let prev = run(StateTag::Idle, before);
    if prev == StateTag::Recording {
        assert(verbs[n - 1] == Verb::StopRecording);
        assert forall|j: int| #![trigger verbs.take(j)] n - 1 < j <= n implies run(
            StateTag::Idle,
            verbs.take(j),
        ) != StateTag::Idle by {
            assert(verbs.take(j) =~= verbs);
        }
    } else {
        injecting_presupposes_a_stopped_recording(before);
        let i = choose|i: int|
            #![trigger before[i]]
            0 <= i < before.len() && before[i] == Verb::StopRecording && run(
                StateTag::Idle,
                before.take(i),
            ) == StateTag::Recording && (forall|j: int|
                #![trigger before.take(j)]
                i < j <= before.len() ==> run(StateTag::Idle, before.take(j)) != StateTag::Idle);
        assert(verbs[i] == before[i]);
        assert(verbs.take(i) =~= before.take(i));
        assert forall|j: int| #![trigger verbs.take(j)] i < j <= n implies run(
            StateTag::Idle,
            verbs.take(j),
        ) != StateTag::Idle by {
            if j < n {
                assert(verbs.take(j) =~= before.take(j));
            } else {
                assert(verbs.take(j) =~= verbs);
            }
        }
    }
}

/// Recording starts from rest, and from nowhere else. A refusal leaves the state as it was and names it and the state aimed at.
pub proof fn recording_starts_from_rest(m: &mut StateMachine, r: Result<(), TransitionError>)
    requires
        call_ensures(StateMachine::start_recording, (m,), r),
    ensures
        r is Ok <==> old(m)@ is Idle,
        r is Ok ==> final(m)@ is Recording,
        r is Err ==> final(m)@ == old(m)@ && r->Err_0.from@ == tag_name(old(m)@) && r->Err_0.to@
            == "Recording"@,
{
}

/// A recording that runs can be stopped, and then is transcribed. A refusal leaves the state as it was and names it and the state aimed at.
pub proof fn a_running_recording_is_stopped(m: &mut StateMachine, r: Result<(), TransitionError>)
    requires
        call_ensures(StateMachine::stop_recording, (m,), r),
    ensures
        r is Ok <==> old(m)@ is Recording,
        r is Ok ==> final(m)@ is Transcribing,
        r is Err ==> final(m)@ == old(m)@ && r->Err_0.from@ == tag_name(old(m)@) && r->Err_0.to@
            == "Transcribing"@,
{
}

/// What was transcribed can be refined. A refusal leaves the state as it was and names it and the state aimed at.
pub proof fn what_was_transcribed_is_refined(m: &mut StateMachine, r: Result<(), TransitionError>)
    requires
        call_ensures(StateMachine::start_llm_refining, (m,), r),
    ensures
        r is Ok <==> old(m)@ is Transcribing,
        r is Ok ==> final(m)@ is LLMRefining,
        r is Err ==> final(m)@ == old(m)@ && r->Err_0.from@ == tag_name(old(m)@) && r->Err_0.to@
            == "LLMRefining"@,
{
}

/// What was transcribed can be pasted without refinement. A refusal leaves the state as it was and names it and the state aimed at.
pub proof fn what_was_transcribed_is_pasted(m: &mut StateMachine, r: Result<(), TransitionError>)
    requires
        call_ensures(StateMachine::transcribing_to_injecting, (m,), r),
    ensures
        r is Ok <==> old(m)@ is Transcribing,
        r is Ok ==> final(m)@ is Injecting,
        r is Err ==> final(m)@ == old(m)@ && r->Err_0.from@ == tag_name(old(m)@) && r->Err_0.to@
            == "Injecting"@,
{
}

/// What was refined can be pasted. A refusal leaves the state as it was and names it and the state aimed at.
pub proof fn what_was_refined_is_pasted(m: &mut StateMachine, r: Result<(), TransitionError>)
    requires
        call_ensures(StateMachine::llm_to_injecting, (m,), r),
    ensures
        r is Ok <==> old(m)@ is LLMRefining,
        r is Ok ==> final(m)@ is Injecting,
        r is Err ==> final(m)@ == old(m)@ && r->Err_0.from@ == tag_name(old(m)@) && r->Err_0.to@
            == "Injecting"@,
{
}

/// What was transcribed can be reviewed without refinement. A refusal leaves the state as it was and names it and the state aimed at.
pub proof fn what_was_transcribed_is_reviewed(m: &mut StateMachine, r: Result<(), TransitionError>)
    requires
        call_ensures(StateMachine::transcribing_to_reviewing, (m,), r),
    ensures
        r is Ok <==> old(m)@ is Transcribing,
        r is Ok ==> final(m)@ is Reviewing,
        r is Err ==> final(m)@ == old(m)@ && r->Err_0.from@ == tag_name(old(m)@) && r->Err_0.to@
            == "Reviewing"@,
{
}

/// What was refined can be reviewed. A refusal leaves the state as it was and names it and the state aimed at.
pub proof fn what_was_refined_is_reviewed(m: &mut StateMachine, r: Result<(), TransitionError>)
    requires
        call_ensures(StateMachine::llm_to_reviewing, (m,), r),
    ensures
        r is Ok <==> old(m)@ is LLMRefining,
        r is Ok ==> final(m)@ is Reviewing,
        r is Err ==> final(m)@ == old(m)@ && r->Err_0.from@ == tag_name(old(m)@) && r->Err_0.to@
            == "Reviewing"@,
{
}

/// What was reviewed can be pasted. A refusal leaves the state as it was and names it and the state aimed at.
pub proof fn what_was_reviewed_is_pasted(m: &mut StateMachine, r: Result<(), TransitionError>)
    requires
        call_ensures(StateMachine::reviewing_to_injecting, (m,), r),
    ensures
        r is Ok <==> old(m)@ is Reviewing,
        r is Ok ==> final(m)@ is Injecting,
        r is Err ==> final(m)@ == old(m)@ && r->Err_0.from@ == tag_name(old(m)@) && r->Err_0.to@
            == "Injecting"@,
{
}

/// A review can be given up. A refusal leaves the state as it was and names it and the state aimed at.
pub proof fn a_review_is_given_up(m: &mut StateMachine, r: Result<(), TransitionError>)
    requires
        call_ensures(StateMachine::cancel_reviewing, (m,), r),
    ensures
        r is Ok <==> old(m)@ is Reviewing,
        r is Ok ==> final(m)@ is Idle,
        r is Err ==> final(m)@ == old(m)@ && r->Err_0.from@ == tag_name(old(m)@) && r->Err_0.to@
            == "Idle"@,
{
}

/// Pasting ends at rest. A refusal leaves the state as it was and names it and the state aimed at.
pub proof fn pasting_ends_at_rest(m: &mut StateMachine, r: Result<(), TransitionError>)
    requires
        call_ensures(StateMachine::finish_injecting, (m,), r),
    ensures
        r is Ok <==> old(m)@ is Injecting,
        r is Ok ==> final(m)@ is Idle,
        r is Err ==> final(m)@ == old(m)@ && r->Err_0.from@ == tag_name(old(m)@) && r->Err_0.to@
            == "Idle"@,
{
}

/// A transcription or refinement can be given up; a recording or review cannot in this way. A refusal leaves the state as it was and names it and the state aimed at.
pub proof fn a_transcription_is_given_up(m: &mut StateMachine, r: Result<(), TransitionError>)
    requires
        call_ensures(StateMachine::cancel_transcribing_or_llm, (m,), r),
    ensures
        r is Ok <==> old(m)@ is Transcribing || old(m)@ is LLMRefining,
        r is Ok ==> final(m)@ is Idle,
        r is Err ==> final(m)@ == old(m)@ && r->Err_0.from@ == tag_name(old(m)@) && r->Err_0.to@
            == "Idle"@,
{
}

/// Recording without transcription starts from rest, and from nowhere else. A refusal leaves the state as it was and names it and the state aimed at.
pub proof fn record_only_starts_from_rest(m: &mut StateMachine, r: Result<(), TransitionError>)
    requires
        call_ensures(StateMachine::start_record_only, (m,), r),
    ensures
        r is Ok <==> old(m)@ is Idle,
        r is Ok ==> final(m)@ is RecordOnly,
        r is Err ==> final(m)@ == old(m)@ && r->Err_0.from@ == tag_name(old(m)@) && r->Err_0.to@
            == "RecordOnly"@,
{
}

/// Recording without transcription ends at rest. A refusal leaves the state as it was and names it and the state aimed at.
pub proof fn record_only_ends_at_rest(m: &mut StateMachine, r: Result<(), TransitionError>)
    requires
        call_ensures(StateMachine::finish_record_only, (m,), r),
    ensures
        r is Ok <==> old(m)@ is RecordOnly,
        r is Ok ==> final(m)@ is Idle,
        r is Err ==> final(m)@ == old(m)@ && r->Err_0.from@ == tag_name(old(m)@) && r->Err_0.to@
            == "Idle"@,
{
}

/// A reset leads to rest from anywhere, and a new machine is at rest.
pub proof fn a_reset_leads_to_rest(
    m: &mut StateMachine,
    r: (),
    fresh: StateMachine,
    tag: StateTag,
    name: String,
)
    requires
        call_ensures(StateMachine::reset, (m,), r),
        call_ensures(StateMachine::new, (), fresh),
        call_ensures(StateMachine::state, (&*final(m),), tag),
        call_ensures(StateMachine::state_name, (&*final(m),), name),
    ensures
        final(m)@ is Idle,
        fresh@ is Idle,
        tag is Idle,
        name@ == "Idle"@,
{
}

} // verus!
