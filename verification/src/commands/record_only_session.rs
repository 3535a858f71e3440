//! Recording to disk while a hotkey is held, without transcription.
//!
//! Capture, the writer and the metadata file are the host's; each function handles one event.

use crate::audio::TARGET_SAMPLE_RATE;
use crate::commands::actions::{acts, nothing, queue, Act, Action};
use crate::commands::pipeline_state::PipelineState;
use crate::commands::{text_field, Content, Field, FieldContent, FieldValue, Payload};
use crate::config::{AppConfig, Language, WhisperModel};
use crate::data_saving;
use crate::data_saving::RecordingMetadata;
use crate::error::AppError;
use crate::state::StateTag;
use crate::text;
use vstd::prelude::*;

verus! {

/// How often the monitor looks at the dropped blocks, in milliseconds.
pub const MONITOR_POLL_MS: u64 = 250;

/// How many audio blocks a recording may lose and still count as complete.
pub const MAX_DROPPED_BLOCKS: u64 = 50;

/// Snapshot of the configuration for one session.
pub struct RecordOnlyPolicy {
    pub data_saving_path: String,
    pub language: Language,
    pub whisper_model: WhisperModel,
}

impl Clone for RecordOnlyPolicy {
    fn clone(&self) -> (p: Self)
        ensures
            p == *self,
    {
        RecordOnlyPolicy {
            data_saving_path: self.data_saving_path.clone(),
            language: self.language,
            whisper_model: self.whisper_model.clone(),
        }
    }
}

/// The snapshot of a configuration.
pub open spec fn record_only_policy(c: AppConfig) -> RecordOnlyPolicy {
    RecordOnlyPolicy {
        data_saving_path: c.data_saving_path,
        language: c.language,
        whisper_model: c.whisper_model,
    }
}

/// A record-only session in progress.
pub struct ActiveRecordOnly {
    /// The name of the recording.
    pub stem: String,
    pub policy: RecordOnlyPolicy,
}

/// What the writer reports at the end of a recording.
pub struct FinalizeInfo {
    pub duration_ms: u64,
    pub dropped_blocks: u64,
}

/// Whether so many lost blocks make a recording incomplete.
pub open spec fn too_many_dropped(dropped: u64) -> bool {
    dropped > MAX_DROPPED_BLOCKS
}

/// Whether so many lost blocks make a recording incomplete.
pub fn exceeds_drop_threshold(dropped: u64) -> (r: bool)
    ensures
        r == too_many_dropped(dropped),
{
    dropped > MAX_DROPPED_BLOCKS
}

/// The event that reports an error of record-only mode.
pub open spec fn error_event(message: Seq<char>) -> Act {
    Act::Emit(
        "record-only-error"@,
        Content::Fields(seq![("message"@, FieldContent::Text(message))]),
    )
}

/// The event that reports a started recording.
pub open spec fn started_event(stem: Seq<char>) -> Act {
    Act::Emit(
        "record-only-started"@,
        Content::Fields(seq![("stem"@, FieldContent::Text(stem))]),
    )
}

/// The event that reports a finished recording.
pub open spec fn finished_event(stem: Seq<char>, status: Seq<char>, dropped: u64) -> Act {
    Act::Emit(
        "record-only-finished"@,
        Content::Fields(
            seq![
                ("stem"@, FieldContent::Text(stem)),
                ("status"@, FieldContent::Text(status)),
                ("dropped_blocks"@, FieldContent::Number(dropped)),
            ],
        ),
    )
}

fn finished_payload(stem: &str, status: &str, dropped: u64) -> (p: Payload)
    ensures
        Act::Emit("record-only-finished"@, p@) == finished_event(stem@, status@, dropped),
{
    let fields = vec![
        Field { name: "stem".to_owned(), value: FieldValue::Text(stem.to_owned()) },
        Field { name: "status".to_owned(), value: FieldValue::Text(status.to_owned()) },
        Field { name: "dropped_blocks".to_owned(), value: FieldValue::Number(dropped) },
    ];
    assert(fields@.map_values(|x: Field| (x.name@, x.value@)) =~= seq![
        ("stem"@, FieldContent::Text(stem@)),
        ("status"@, FieldContent::Text(status@)),
        ("dropped_blocks"@, FieldContent::Number(dropped)),
    ]);
    Payload::Fields(fields)
}

/// What the host does when a session could not be started.
pub open spec fn start_failed_acts() -> Seq<Act> {
    seq![error_event("录音启动失败，请检查数据保存路径"@), Act::StopCapture]
}

/// How a recording ended, with the number of lost blocks: complete and waiting for transcription, or
/// failed.
pub open spec fn outcome_of(outcome: Result<FinalizeInfo, AppError>) -> (Seq<char>, u64) {
    match outcome {
        Ok(info) => if too_many_dropped(info.dropped_blocks) {
            ("failed"@, info.dropped_blocks)
        } else {
            ("pending"@, info.dropped_blocks)
        },
        Err(_) => ("failed"@, 0),
    }
}

/// What follows a press of the record-only hotkey.
pub enum RecordOnlyPress {
    /// Nothing.
    Ignored,
    /// Capture and the writer are to be started.
    Start(RecordOnlyPolicy),
}

/// The tag of the state machine after the clean-up of a session.
pub open spec fn recovered_tag(tag: StateTag, active: bool) -> StateTag {
    if active || tag == StateTag::RecordOnly {
        StateTag::Idle
    } else {
        tag
    }
}

/// What the monitor does after a look at the session.
#[derive(Debug, Clone, Copy, PartialEq, Eq, Structural)]
pub enum MonitorStep {
    /// The session is over; so is the monitor.
    Exit,
    /// Too much was lost: clean the session up.
    Recover,
    /// Look again after a pause.
    Wait(u64),
}

/// The life of a record-only recording.
pub struct RecordOnlySession;

impl RecordOnlySession {
    fn start_failed(ps: &mut PipelineState) -> (v: Vec<Action>)
        ensures
            *final(ps) == (PipelineState { sm: final(ps).sm, ..*old(ps) }),
            final(ps).sm@ == StateTag::Idle,
            acts(v@) == start_failed_acts(),
    {
        let mut v = nothing();
        let message = "录音启动失败，请检查数据保存路径";
        queue(&mut v, Action::Emit("record-only-error", text_field("message", message)));
        queue(&mut v, Action::StopCapture);
        ps.sm_reset();
        assert(acts(v@) =~= start_failed_acts());
        v
    }

    /// The hotkey is pressed: unless the mode is switched off or the machine is busy, the snapshot
    /// of the configuration is taken and capture begins. A session needs a directory to save to.
    pub fn on_press(ps: &mut PipelineState) -> (r: (Vec<Action>, RecordOnlyPress))
        ensures
            *final(ps) == (PipelineState { sm: final(ps).sm, ..*old(ps) }),
            ({
                let c = old(ps).config_cache@;
                if !c.record_only_enabled || old(ps).sm@ != StateTag::Idle {
                    &&& final(ps).sm@ == old(ps).sm@
                    &&& acts(r.0@) == Seq::<Act>::empty()
                    &&& r.1 is Ignored
                } else if text::trimmed(c.data_saving_path@).len() == 0 {
                    &&& final(ps).sm@ == StateTag::Idle
                    &&& acts(r.0@) == start_failed_acts()
                    &&& r.1 is Ignored
                } else {
                    &&& final(ps).sm@ == StateTag::RecordOnly
                    &&& acts(r.0@) == seq![Act::StartCapture]
                    &&& r.1 == RecordOnlyPress::Start(record_only_policy(c))
                }
            }),
    {
        let cfg = ps.config_cache.read_cached();
        if !cfg.record_only_enabled {
            return (nothing(), RecordOnlyPress::Ignored);
        }
        if !ps.sm_start_record_only() {
            return (nothing(), RecordOnlyPress::Ignored);
        }
        let policy = RecordOnlyPolicy {
            data_saving_path: cfg.data_saving_path.clone(),
            language: cfg.language,
            whisper_model: cfg.whisper_model.clone(),
        };
        if text::trim(policy.data_saving_path.as_str()).as_str().is_empty() {
            let v = Self::start_failed(ps);
            return (v, RecordOnlyPress::Ignored);
        }
        let mut v = nothing();
        queue(&mut v, Action::StartCapture);
        assert(acts(v@) =~= seq![Act::StartCapture]);
        (v, RecordOnlyPress::Start(policy))
    }

    /// The rate at which the writer is to be started once capture was: without a rate there is no
    /// recording.
    pub fn capture_rate(started: Result<(), AppError>, sample_rate: Option<u32>) -> (r: Result<
        u32,
        AppError,
    >)
        ensures
            match started {
                Err(e) => r == Err::<u32, AppError>(e),
                Ok(_) => match sample_rate {
                    Some(rate) => r == Ok::<u32, AppError>(rate),
                    None => r matches Err(AppError::Audio(m)) && m@
                        == "sample rate unavailable after start"@,
                },
            },
    {
        match started {
            Err(e) => Err(e),
            Ok(_) => match sample_rate {
                Some(rate) => Ok(rate),
                None => Err(AppError::Audio("sample rate unavailable after start".to_owned())),
            },
        }
    }

    /// Capture and the writer have been started under a name, or not.
    pub fn on_started(
        ps: &mut PipelineState,
        policy: RecordOnlyPolicy,
        started: Result<String, AppError>,
    ) -> (v: Vec<Action>)
        ensures
            match started {
                Ok(stem) => {
                    &&& *final(ps) == (PipelineState {
                        record_only: Some(ActiveRecordOnly { stem, policy }),
                        ..*old(ps)
                    })
                    &&& acts(v@) == seq![started_event(stem@)]
                },
                Err(_) => {
                    &&& *final(ps) == (PipelineState { sm: final(ps).sm, ..*old(ps) })
                    &&& final(ps).sm@ == StateTag::Idle
                    &&& acts(v@) == start_failed_acts()
                },
            },
    {
        match started {
            Ok(stem) => {
                let mut v = nothing();
                let payload = text_field("stem", stem.as_str());
                queue(&mut v, Action::Emit("record-only-started", payload));
                assert(acts(v@) =~= seq![started_event(stem@)]);
                ps.set_record_only_session(ActiveRecordOnly { stem, policy });
                v
            },
            Err(_) => Self::start_failed(ps),
        }
    }

    /// The hotkey is released: whether a session is to be cleaned up.
    pub fn on_release(ps: &PipelineState) -> (r: bool)
        ensures
            r == (ps.sm@ == StateTag::RecordOnly),
    {
        ps.sm_state() == StateTag::RecordOnly
    }

    /// The monitor looks at a session, given the blocks lost so far.
    pub fn monitor(ps: &PipelineState, dropped: u64) -> (step: MonitorStep)
        ensures
            step == (if ps.sm@ != StateTag::RecordOnly {
                MonitorStep::Exit
            } else if too_many_dropped(dropped) {
                MonitorStep::Recover
            } else {
                MonitorStep::Wait(MONITOR_POLL_MS)
            }),
    {
        if ps.sm_state() != StateTag::RecordOnly {
            return MonitorStep::Exit;
        }
        if exceeds_drop_threshold(dropped) {
            return MonitorStep::Recover;
        }
        MonitorStep::Wait(MONITOR_POLL_MS)
    }

    /// Begin the clean-up of a session, whoever asks for it: capture stops, and the first caller
    /// gets the session to finalize. Without one, an orphaned state is reset.
    pub fn recover(ps: &mut PipelineState) -> (r: (Vec<Action>, Option<ActiveRecordOnly>))
        ensures
            acts(r.0@) == seq![Act::StopCapture],
            r.1 == old(ps).record_only,
            *final(ps) == (PipelineState { sm: final(ps).sm, record_only: None, ..*old(ps) }),
            final(ps).sm@ == (if r.1 is None {
                recovered_tag(old(ps).sm@, false)
            } else {
                old(ps).sm@
            }),
    {
        let mut v = nothing();
        queue(&mut v, Action::StopCapture);
        assert(acts(v@) =~= seq![Act::StopCapture]);
        let session = ps.take_record_only_session();
        if session.is_none() {
            if ps.sm_state() == StateTag::RecordOnly {
                ps.sm_reset();
            }
        }
        (v, session)
    }

    /// How a recording ended, with the number of lost blocks.
    pub fn session_outcome(outcome: &Result<FinalizeInfo, AppError>) -> (r: (&'static str, u64))
        ensures
            (r.0@, r.1) == outcome_of(*outcome),
    {
        match outcome {
            Ok(info) => {
                if exceeds_drop_threshold(info.dropped_blocks) {
                    ("failed", info.dropped_blocks)
                } else {
                    ("pending", info.dropped_blocks)
                }
            },
            Err(_) => ("failed", 0),
        }
    }

    /// What is noted about a recording, and the name of the file that it is noted in.
    pub fn session_json(
        policy: &RecordOnlyPolicy,
        stem: &str,
        outcome: &Result<FinalizeInfo, AppError>,
        timestamp: String,
    ) -> (r: (String, RecordingMetadata))
        ensures
            r.0@ == stem@ + ".json"@,
            r.1 == (RecordingMetadata {
                timestamp: Some(timestamp),
                language: Some(policy.language),
                whisper_model: Some(policy.whisper_model),
                sample_rate: Some(TARGET_SAMPLE_RATE),
                original_sample_rate: None,
                duration_ms: Some(
                    match *outcome {
                        Ok(info) => info.duration_ms,
                        Err(_) => 0,
                    },
                ),
                transcription: None,
                llm_corrected: None,
                final_text: None,
                segments: r.1.segments,
                transcription_status: r.1.transcription_status,
                source: r.1.source,
                dropped_blocks: outcome_of(*outcome).1,
            }),
            r.1.segments@.len() == 0,
            data_saving::text_of(r.1.transcription_status) == Some(outcome_of(*outcome).0),
            data_saving::text_of(r.1.source) == Some("record_only"@),
    {
        let ended = Self::session_outcome(outcome);
        let duration_ms: u64 = match outcome {
            Ok(info) => info.duration_ms,
            Err(_) => 0,
        };
        let mut m = RecordingMetadata::default();
        m.timestamp = Some(timestamp);
        m.language = Some(policy.language);
        m.whisper_model = Some(policy.whisper_model.clone());
        m.sample_rate = Some(TARGET_SAMPLE_RATE);
        m.duration_ms = Some(duration_ms);
        m.transcription_status = Some(ended.0.to_owned());
        m.source = Some("record_only".to_owned());
        m.dropped_blocks = ended.1;
        (stem.to_owned().concat(".json"), m)
    }

    /// End the clean-up of a session that was finalized, and whose metadata was written, or not: it
    /// is reported, and the state machine returns to Idle in any case.
    pub fn finish_recover(
        ps: &mut PipelineState,
        session: ActiveRecordOnly,
        outcome: &Result<FinalizeInfo, AppError>,
        written: Result<(), AppError>,
    ) -> (v: Vec<Action>)
        ensures
            *final(ps) == (PipelineState { sm: final(ps).sm, ..*old(ps) }),
            final(ps).sm@ == recovered_tag(old(ps).sm@, true),
            acts(v@) == (if written is Err {
                seq![error_event("录音元数据写入失败"@)]
            } else {
                seq![]
            }) + seq![
                finished_event(session.stem@, outcome_of(*outcome).0, outcome_of(*outcome).1),
            ],
    {
        let mut v = nothing();
        if written.is_err() {
            let message = "录音元数据写入失败";
            queue(&mut v, Action::Emit("record-only-error", text_field("message", message)));
        }
        let ended = Self::session_outcome(outcome);
        let payload = finished_payload(session.stem.as_str(), ended.0, ended.1);
        queue(&mut v, Action::Emit("record-only-finished", payload));
        if !ps.sm_finish_record_only() {
            ps.sm_reset();
        }
        assert(acts(v@) =~= (if written is Err {
            seq![error_event("录音元数据写入失败"@)]
        } else {
            seq![]
        }) + seq![
            finished_event(session.stem@, outcome_of(*outcome).0, outcome_of(*outcome).1),
        ]);
        v
    }
}

/// Cleaning a session up a second time changes nothing: the first clean-up has left no session and
/// not the state of one.
pub proof fn recovering_twice_is_recovering_once(tag: StateTag, active: bool)
    ensures
        recovered_tag(tag, active) != StateTag::RecordOnly,
        recovered_tag(recovered_tag(tag, active), false) == recovered_tag(tag, active),
{
}

/// Recording without transcription begins where the mode is switched on, the machine is at rest and
/// there is a directory to save to; a missing directory is told, and anything else is ignored.
pub proof fn a_session_begins_where_it_can(
    ps: &mut PipelineState,
    r: (Vec<Action>, RecordOnlyPress),
)
    requires
        call_ensures(RecordOnlySession::on_press, (ps,), r),
    ensures
        ({
            let c = old(ps).config_cache@;
            let path = text::trimmed(c.data_saving_path@).len() > 0;
            let asked = c.record_only_enabled && old(ps).sm@ is Idle;
            &&& r.1 is Start <==> asked && path
            &&& r.1 is Start ==> final(ps).sm@ is RecordOnly && acts(r.0@) == seq![
                Act::StartCapture,
            ]
            &&& r.1 matches RecordOnlyPress::Start(p) ==> p.data_saving_path == c.data_saving_path
                && p.language == c.language && p.whisper_model == c.whisper_model
            &&& !asked ==> r.0@.len() == 0 && final(ps).sm@ == old(ps).sm@
            &&& asked && !path ==> final(ps).sm@ is Idle && acts(r.0@).len() == 2 && (acts(
                r.0@,
            )[0] matches Act::Emit(name, _) && name == "record-only-error"@) && acts(r.0@)[1]
                == Act::StopCapture
            &&& *final(ps) == (PipelineState { sm: final(ps).sm, ..*old(ps) })
        }),
{
    assert(acts(r.0@).len() == r.0@.len());
}

/// A session that started is kept under its name and told; one that could not start leaves the
/// machine at rest.
pub proof fn a_started_session_is_kept(
    ps: &mut PipelineState,
    policy: RecordOnlyPolicy,
    started: Result<String, AppError>,
    v: Vec<Action>,
    capture: Result<(), AppError>,
    rate: Option<u32>,
    writer: Result<u32, AppError>,
)
    requires
        call_ensures(RecordOnlySession::on_started, (ps, policy, started), v),
        call_ensures(RecordOnlySession::capture_rate, (capture, rate), writer),
    ensures
        started is Ok ==> final(ps).record_only == Some(
            ActiveRecordOnly { stem: started->Ok_0, policy },
        ) && final(ps).sm == old(ps).sm && acts(v@) == seq![
            Act::Emit(
                "record-only-started"@,
                Content::Fields(seq![("stem"@, FieldContent::Text(started->Ok_0@))]),
            ),
        ],
        started is Err ==> final(ps).sm@ is Idle && final(ps).record_only == old(ps).record_only
            && acts(v@).len() == 2 && acts(v@)[1] == Act::StopCapture,
        writer is Ok <==> capture is Ok && rate is Some,
        writer is Ok ==> writer->Ok_0 == rate->0,
{
}

/// A session is cleaned up when the key is released, or when it has lost more than fifty blocks;
/// otherwise it is looked at again after a quarter of a second.
pub proof fn a_session_that_loses_too_much_ends(
    ps: PipelineState,
    dropped: u64,
    released: bool,
    step: MonitorStep,
    too_many: bool,
)
    requires
        call_ensures(RecordOnlySession::on_release, (&ps,), released),
        call_ensures(RecordOnlySession::monitor, (&ps, dropped), step),
        call_ensures(exceeds_drop_threshold, (dropped,), too_many),
    ensures
        released <==> ps.sm@ is RecordOnly,
        too_many <==> dropped > 50,
        step is Exit <==> !(ps.sm@ is RecordOnly),
        step is Recover <==> ps.sm@ is RecordOnly && dropped > 50,
        ps.sm@ is RecordOnly && dropped <= 50 ==> step == MonitorStep::Wait(250),
{
}

/// Whoever cleans a session up first gets it, and only they; a second clean-up finds nothing and
/// leaves a machine that is not in this mode alone.
pub proof fn a_session_is_cleaned_up_once(
    ps: &mut PipelineState,
    first: (Vec<Action>, Option<ActiveRecordOnly>),
    p: &mut PipelineState,
    second: (Vec<Action>, Option<ActiveRecordOnly>),
)
    requires
        call_ensures(RecordOnlySession::recover, (ps,), first),
        *old(p) == *final(ps),
        call_ensures(RecordOnlySession::recover, (p,), second),
    ensures
        first.1 == old(ps).record_only,
        second.1 is None,
        acts(first.0@) == seq![Act::StopCapture],
        final(ps).record_only is None,
        first.1 is Some ==> final(ps).sm@ == old(ps).sm@,
        first.1 is None && old(ps).sm@ is RecordOnly ==> final(ps).sm@ is Idle,
        first.1 is None && !(old(ps).sm@ is RecordOnly) ==> final(ps).sm@ == old(ps).sm@,
{
}

/// A recording that was written waits for transcription unless it lost more than fifty blocks; what
/// is noted about it says so, names its source, and holds no text yet.
pub proof fn a_recording_waits_for_transcription(
    policy: RecordOnlyPolicy,
    stem: &str,
    outcome: Result<FinalizeInfo, AppError>,
    timestamp: String,
    r: (String, RecordingMetadata),
    ended: (&'static str, u64),
)
    requires
        call_ensures(RecordOnlySession::session_json, (&policy, stem, &outcome, timestamp), r),
        call_ensures(RecordOnlySession::session_outcome, (&outcome,), ended),
    ensures
        outcome is Ok && outcome->Ok_0.dropped_blocks <= 50 ==> ended.0@ == "pending"@,
        outcome is Ok && outcome->Ok_0.dropped_blocks > 50 ==> ended.0@ == "failed"@,
        outcome is Err ==> ended.0@ == "failed"@ && ended.1 == 0,
        outcome is Ok ==> ended.1 == outcome->Ok_0.dropped_blocks && r.1.duration_ms == Some(
            outcome->Ok_0.duration_ms,
        ),
        r.0@ == stem@ + ".json"@,
        r.1.transcription_status is Some && r.1.transcription_status->0@ == ended.0@,
        r.1.dropped_blocks == ended.1,
        r.1.source is Some && r.1.source->0@ == "record_only"@,
        r.1.timestamp == Some(timestamp),
        r.1.language == Some(policy.language) && r.1.whisper_model == Some(policy.whisper_model),
        r.1.sample_rate == Some(16_000u32),
        r.1.transcription is None && r.1.llm_corrected is None && r.1.final_text is None
            && r.1.segments@.len() == 0,
{
}

/// The end of a session is told in any case, with how it ended, and the machine is at rest then.
pub proof fn the_end_of_a_session_is_told(
    ps: &mut PipelineState,
    session: ActiveRecordOnly,
    outcome: Result<FinalizeInfo, AppError>,
    written: Result<(), AppError>,
    v: Vec<Action>,
    ended: (&'static str, u64),
)
    requires
        call_ensures(
            RecordOnlySession::finish_recover,
            (ps, session, &outcome, written),
            v,
        ),
        call_ensures(RecordOnlySession::session_outcome, (&outcome,), ended),
    ensures
        final(ps).sm@ is Idle,
        *final(ps) == (PipelineState { sm: final(ps).sm, ..*old(ps) }),
        acts(v@).len() == (if written is Err {
            2int
        } else {
            1
        }),
        acts(v@).last() == Act::Emit(
            "record-only-finished"@,
            Content::Fields(
                seq![
                    ("stem"@, FieldContent::Text(session.stem@)),
                    ("status"@, FieldContent::Text(ended.0@)),
                    ("dropped_blocks"@, FieldContent::Number(ended.1)),
                ],
            ),
        ),
        written is Err ==> (acts(v@)[0] matches Act::Emit(name, _) && name
            == "record-only-error"@),
{
}

} // verus!
