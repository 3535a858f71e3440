//! Transcribing recordings after the fact, and pasting the result where the user came from.
//!
//! The speech engine, the language model, windows and files are the host's.

use crate::commands::actions::{acts, nothing, queue, Act, Action};
use crate::commands::data_management::names;
use crate::commands::data_management::names::{resolve_child, ChildProbe};
use crate::commands::pipeline_state::{CancelToken, PipelineState};
use crate::commands::{text_field, Content, Field, FieldContent, FieldValue, Payload};
use crate::data_saving;
use crate::data_saving::{set_transcription_result, RecordingMetadata};
use crate::error;
use crate::error::{AppError, CommandError};
use crate::llm::LLMClient;
use crate::speech;
use crate::speech::{merge_segments, Segment};
use crate::text;
use crate::wav;
use crate::wav::read_wav_samples;
use vstd::prelude::*;

verus! {

/// State of the transcription window.
pub struct PendingTranscribe {
    /// The window that had the focus when the transcription window was opened. It can be pasted
    /// into once.
    pub hwnd: Option<isize>,
    /// Cancellation token of the transcription in flight, if any.
    pub cancel_token: Option<CancelToken>,
    /// The number that the next token gets.
    pub next_token: u64,
}

/// The number after another; the largest is followed by 0.
pub open spec fn token_after(id: u64) -> u64 {
    if id == u64::MAX {
        0
    } else {
        (id + 1) as u64
    }
}

impl PendingTranscribe {
    pub fn new() -> (p: Self)
        ensures
            p == (PendingTranscribe { hwnd: None, cancel_token: None, next_token: 1 }),
    {
        PendingTranscribe { hwnd: None, cancel_token: None, next_token: 1 }
    }

    /// The transcription window is opened: not while a transcription is in flight. Otherwise the
    /// window that has the focus is remembered.
    pub fn open_window(&mut self, foreground: isize) -> (r: Result<(), CommandError>)
        ensures
            old(self).cancel_token is Some ==> {
                &&& error::refused(r, "STATE"@, "转录进行中，请等待完成或取消"@)
                &&& *final(self) == *old(self)
            },
            old(self).cancel_token is None ==> {
                &&& r is Ok
                &&& *final(self) == (PendingTranscribe { hwnd: Some(foreground), ..*old(self) })
            },
    {
        if self.cancel_token.is_some() {
            return Err(CommandError::state("转录进行中，请等待完成或取消"));
        }
        self.hwnd = Some(foreground);
        Ok(())
    }

    /// What came of showing the transcription window: none where there is no such window.
    pub fn window_opened(shown: Option<Result<(), String>>) -> (r: Result<(), CommandError>)
        ensures
            match shown {
                None => error::refused(r, "STATE"@, "转录窗口未初始化"@),
                Some(Err(e)) => error::refused(r, "STATE"@, "显示转录窗口失败: "@ + e@),
                Some(Ok(_)) => r is Ok,
            },
    {
        match shown {
            None => Err(CommandError::state("转录窗口未初始化")),
            Some(Err(e)) => {
                let message = "显示转录窗口失败: ".to_owned().concat(e.as_str());
                Err(CommandError::state(message.as_str()))
            },
            Some(Ok(_)) => Ok(()),
        }
    }

    /// Claim the transcription in flight; hands out its token, which nobody has cancelled.
    pub fn begin_transcription(&mut self) -> (r: Result<CancelToken, CommandError>)
        ensures
            old(self).cancel_token is Some ==> {
                &&& error::refused(r, "STATE"@, "已有转录任务进行中，请等待完成或取消"@)
                &&& *final(self) == *old(self)
            },
            old(self).cancel_token is None ==> {
                let token = CancelToken { id: old(self).next_token, cancelled: false };
                &&& r == Ok::<CancelToken, CommandError>(token)
                &&& *final(self) == (PendingTranscribe {
                    cancel_token: Some(token),
                    next_token: token_after(old(self).next_token),
                    ..*old(self)
                })
            },
    {
        if self.cancel_token.is_some() {
            return Err(CommandError::state("已有转录任务进行中，请等待完成或取消"));
        }
        let token = CancelToken::new(self.next_token);
        self.next_token = self.next_token.wrapping_add(1);
        self.cancel_token = Some(token);
        Ok(token)
    }

    /// The transcription in flight is over.
    pub fn end_transcription(&mut self)
        ensures
            *final(self) == (PendingTranscribe { cancel_token: None, ..*old(self) }),
    {
        self.cancel_token = None;
    }

    /// Cancel the transcription in flight: its token is set, and what goes on behind it is stopped.
    pub fn cancel_transcription(&mut self) -> (r: (Vec<Action>, Result<(), CommandError>))
        ensures
            match old(self).cancel_token {
                Some(token) => {
                    &&& r.1 is Ok
                    &&& acts(r.0@) == seq![Act::CancelTranscription(token.id)]
                    &&& *final(self) == (PendingTranscribe {
                        cancel_token: Some(CancelToken { cancelled: true, ..token }),
                        ..*old(self)
                    })
                },
                None => {
                    &&& error::refused(r.1, "STATE"@, "没有进行中的转录任务"@)
                    &&& acts(r.0@) == Seq::<Act>::empty()
                    &&& *final(self) == *old(self)
                },
            },
    {
        let mut v = nothing();
        match self.cancel_token {
            Some(token) => {
                self.cancel_token = Some(CancelToken { id: token.id, cancelled: true });
                queue(&mut v, Action::CancelTranscription(token.id));
                assert(acts(v@) =~= seq![Act::CancelTranscription(token.id)]);
                (v, Ok(()))
            },
            None => (v, Err(CommandError::state("没有进行中的转录任务"))),
        }
    }

    /// The transcription window is closed: a transcription in flight is cancelled, and nothing can
    /// be pasted until it is opened again.
    pub fn on_transcribe_window_closed(&mut self) -> (v: Vec<Action>)
        ensures
            *final(self) == (PendingTranscribe { hwnd: None, cancel_token: None, ..*old(self) }),
            acts(v@) == (match old(self).cancel_token {
                Some(token) => seq![Act::CancelTranscription(token.id)],
                None => seq![],
            }),
    {
        self.hwnd = None;
        let mut v = nothing();
        if let Some(token) = self.cancel_token.take() {
            queue(&mut v, Action::CancelTranscription(token.id));
            assert(acts(v@) =~= seq![Act::CancelTranscription(token.id)]);
        }
        v
    }

    /// Begin to paste a text: it must hold something besides space, the recording must be one of
    /// the configured directory, and the target must not have been used up. Hands out the target,
    /// the file that the text is noted in, and the text without space around it.
    pub fn inject_transcript_text(
        &mut self,
        ps: &PipelineState,
        filename: &str,
        given: &str,
        json: ChildProbe,
    ) -> (r: Result<(isize, String, String), CommandError>)
        ensures
            ({
                let path = ps.config_cache@.data_saving_path@;
                let outside = json.canonical matches Some((_, false));
                if text::trimmed(given@).len() == 0 {
                    &&& error::refused(r, "VALIDATION"@, "注入文本不能为空"@)
                    &&& *final(self) == *old(self)
                } else if text::trimmed(path).len() == 0 {
                    &&& error::refused(r, "VALIDATION"@, "未设置数据保存路径"@)
                    &&& *final(self) == *old(self)
                } else if !names::valid_stem(filename@) {
                    &&& error::refused(
                        r,
                        "VALIDATION"@,
                        "invalid recording filename: "@ + filename@,
                    )
                    &&& *final(self) == *old(self)
                } else if outside {
                    &&& error::refused(r, "VALIDATION"@, "path escapes data_saving_path"@)
                    &&& *final(self) == *old(self)
                } else {
                    &&& *final(self) == (PendingTranscribe { hwnd: None, ..*old(self) })
                    &&& match old(self).hwnd {
                        None => error::refused(
                            r,
                            "STATE"@,
                            "目标窗口句柄已失效，请重新打开转录窗口"@,
                        ),
                        Some(hwnd) => {
                            &&& r matches Ok(target)
                            &&& target.0 == hwnd
                            &&& target.1 == (match json.canonical {
                                Some((p, _)) => p,
                                None => json.plain,
                            })
                            &&& target.2@ == text::trimmed(given@)
                        },
                    }
                }
            }),
    {
        let trimmed = text::trim(given);
        if trimmed.as_str().is_empty() {
            return Err(CommandError::validation("注入文本不能为空"));
        }
        if let Err(e) = recordings_base_dir(ps) {
            return Err(e);
        }
        let json_path = match resolve_child(filename, json) {
            Ok(p) => p,
            Err(e) => {
                return Err(e);
            },
        };
        match self.hwnd.take() {
            Some(hwnd) => Ok((hwnd, json_path, trimmed)),
            None => Err(
                CommandError::state("目标窗口句柄已失效，请重新打开转录窗口"),
            ),
        }
    }
}

/// A transcription that may begin.
pub struct TranscribeJob {
    pub token: CancelToken,
    /// The file that the result is written to.
    pub json_path: String,
    pub samples: Vec<i16>,
}

/// Why the files of a recording cannot be used, if so: the message of the refusal.
pub open spec fn child_fault(path: Seq<char>, filename: Seq<char>, probe: ChildProbe) -> Option<
    Seq<char>,
> {
    if text::trimmed(path).len() == 0 {
        Some("未设置数据保存路径"@)
    } else if !names::valid_stem(filename) {
        Some("invalid recording filename: "@ + filename)
    } else if probe.canonical matches Some((_, false)) {
        Some("path escapes data_saving_path"@)
    } else {
        None
    }
}

/// The path of a file of a recording.
pub open spec fn child_path(probe: ChildProbe) -> String {
    match probe.canonical {
        Some((p, _)) => p,
        None => probe.plain,
    }
}

impl PendingTranscribe {
    /// Begin the transcription of a recording, given what the host found and read: the recording
    /// must be one of the configured directory and of the right format, and no other transcription
    /// may be in flight.
    pub fn transcribe_recording(
        &mut self,
        ps: &PipelineState,
        filename: &str,
        wav_file: ChildProbe,
        json_file: ChildProbe,
        bytes: Result<Vec<u8>, String>,
    ) -> (r: Result<TranscribeJob, CommandError>)
        ensures
            r is Err ==> *final(self) == *old(self),
            r matches Ok(job) ==> {
                &&& job.token == (CancelToken { id: old(self).next_token, cancelled: false })
                &&& *final(self) == (PendingTranscribe {
                    cancel_token: Some(job.token),
                    next_token: token_after(old(self).next_token),
                    ..*old(self)
                })
            },
            ({
                let path = ps.config_cache@.data_saving_path@;
                match (
                    child_fault(path, filename@, wav_file),
                    child_fault(path, filename@, json_file),
                ) {
                    (Some(fault), _) => error::refused(r, "VALIDATION"@, fault),
                    (None, Some(fault)) => error::refused(r, "VALIDATION"@, fault),
                    (None, None) => match bytes {
                        Err(e) => error::refused(r, "IO"@, "failed to read recording: "@ + e@),
                        Ok(b) => match wav::wav_fault(b@) {
                            Some(fault) => error::refused(r, "VALIDATION"@, fault),
                            None => if old(self).cancel_token is Some {
                                error::refused(
                                    r,
                                    "STATE"@,
                                    "已有转录任务进行中，请等待完成或取消"@,
                                )
                            } else {
                                &&& r matches Ok(job)
                                &&& job.json_path == child_path(json_file)
                                &&& job.samples@.len() == wav::samples_in(b@).len()
                                &&& forall|i: int|
                                    0 <= i < job.samples@.len() ==> #[trigger] job.samples@[i]
                                        == wav::samples_in(b@)[i]
                            },
                        },
                    },
                }
            }),
    {
        if let Err(e) = recordings_base_dir(ps) {
            return Err(e);
        }
        if let Err(e) = resolve_child(filename, wav_file) {
            return Err(e);
        }
        let json_path = match resolve_child(filename, json_file) {
            Ok(p) => p,
            Err(e) => {
                return Err(e);
            },
        };
        let bytes = match bytes {
            Ok(b) => b,
            Err(e) => {
                let message = "failed to read recording: ".to_owned().concat(e.as_str());
                return Err(CommandError::new("IO", message.as_str()));
            },
        };
        let samples = match read_wav_samples(&bytes) {
            Ok(read) => read.0,
            Err(e) => {
                return Err(e);
            },
        };
        match self.begin_transcription() {
            Ok(token) => Ok(TranscribeJob { token, json_path, samples }),
            Err(e) => Err(e),
        }
    }
}

/// Why the notes about a recording cannot be used.
pub enum NoteFault {
    /// The file cannot be read.
    Unreadable(String),
    /// The file does not hold such notes.
    Unparsable(String),
}

/// The error of a command for notes that cannot be used.
pub open spec fn note_fault_message(f: NoteFault) -> Seq<char> {
    match f {
        NoteFault::Unreadable(e) => "failed to read recording metadata: "@ + e@,
        NoteFault::Unparsable(e) => "failed to parse recording metadata: "@ + e@,
    }
}

/// The error of a command for notes that cannot be used.
pub fn note_error(f: NoteFault) -> (c: CommandError)
    ensures
        c.says("IO"@, note_fault_message(f)),
{
    let message = match f {
        NoteFault::Unreadable(e) => "failed to read recording metadata: ".to_owned().concat(
            e.as_str(),
        ),
        NoteFault::Unparsable(e) => "failed to parse recording metadata: ".to_owned().concat(
            e.as_str(),
        ),
    };
    CommandError::new("IO", message.as_str())
}

/// The segments of a recording, given what the host found and read.
pub fn get_recording_segments(
    ps: &PipelineState,
    filename: &str,
    json_file: ChildProbe,
    notes: Result<RecordingMetadata, NoteFault>,
) -> (r: Result<RecordingSegments, CommandError>)
    ensures
        match child_fault(ps.config_cache@.data_saving_path@, filename@, json_file) {
            Some(fault) => error::refused(r, "VALIDATION"@, fault),
            None => match notes {
                Err(f) => error::refused(r, "IO"@, note_fault_message(f)),
                Ok(m) => r is Ok && segments_of(r->Ok_0, m),
            },
        },
{
    if let Err(e) = recordings_base_dir(ps) {
        return Err(e);
    }
    if let Err(e) = resolve_child(filename, json_file) {
        return Err(e);
    }
    match notes {
        Ok(m) => Ok(segments_from_metadata(&m)),
        Err(f) => Err(note_error(f)),
    }
}

/// The error of a command whose task died.
pub fn task_failed(task: &str, e: &str) -> (c: CommandError)
    ensures
        c.says("INTERNAL"@, task@ + " task failed: "@ + e@),
{
    let message = task.to_owned().concat(" task failed: ").concat(e);
    CommandError::new("INTERNAL", message.as_str())
}

impl Default for PendingTranscribe {
    fn default() -> (p: Self)
        ensures
            p == (PendingTranscribe { hwnd: None, cancel_token: None, next_token: 1 }),
    {
        Self::new()
    }
}

/// The directory of the recordings.
pub fn recordings_base_dir(ps: &PipelineState) -> (r: Result<String, CommandError>)
    ensures
        text::trimmed(ps.config_cache@.data_saving_path@).len() == 0 ==> error::refused(
            r,
            "VALIDATION"@,
            "未设置数据保存路径"@,
        ),
        text::trimmed(ps.config_cache@.data_saving_path@).len() > 0 ==> r == Ok::<
            String,
            CommandError,
        >(ps.config_cache@.data_saving_path),
{
    let cfg = ps.config_cache.read_cached();
    if text::trim(cfg.data_saving_path.as_str()).as_str().is_empty() {
        return Err(CommandError::validation("未设置数据保存路径"));
    }
    Ok(cfg.data_saving_path.clone())
}

/// What is known of the segments of a recording.
pub struct RecordingSegments {
    pub segments: Vec<Segment>,
    pub duration_ms: u32,
    pub transcription_status: String,
    pub dropped_blocks: u64,
}

/// What is known of the segments of a recording, from what is noted about it.
pub open spec fn segments_of(r: RecordingSegments, m: RecordingMetadata) -> bool {
    &&& speech::same_segments(r.segments@, m.segments@)
    &&& r.duration_ms == (match m.duration_ms {
        Some(ms) => if ms <= u32::MAX {
            ms as u32
        } else {
            u32::MAX
        },
        None => 0,
    })
    &&& r.transcription_status@ == (match m.transcription_status {
        Some(s) => s@,
        None => "pending"@,
    })
    &&& r.dropped_blocks == m.dropped_blocks
}

/// The segments of a recording, from what is noted about it. What is missing gets a default: a
/// recording whose state is not noted counts as waiting for transcription.
pub fn segments_from_metadata(metadata: &RecordingMetadata) -> (r: RecordingSegments)
    ensures
        segments_of(r, *metadata),
{
    let duration_ms: u32 = match metadata.duration_ms {
        Some(ms) => if ms <= u32::MAX as u64 {
            ms as u32
        } else {
            u32::MAX
        },
        None => 0,
    };
    let transcription_status = match &metadata.transcription_status {
        Some(s) => s.clone(),
        None => "pending".to_owned(),
    };
    RecordingSegments {
        segments: data_saving::copy_segments(&metadata.segments),
        duration_ms,
        transcription_status,
        dropped_blocks: metadata.dropped_blocks,
    }
}

/// Note a pasted text as the final text of a recording; its transcription and its correction stay.
pub fn write_final_text(metadata: &mut RecordingMetadata, final_text: &str)
    ensures
        data_saving::text_of(final(metadata).final_text) == Some(final_text@),
        data_saving::text_of(final(metadata).transcription) == Some(
            match old(metadata).transcription {
                Some(t) => t@,
                None => Seq::<char>::empty(),
            },
        ),
        data_saving::text_of(final(metadata).llm_corrected) == data_saving::text_of(
            old(metadata).llm_corrected,
        ),
        *final(metadata) == (RecordingMetadata {
            transcription: final(metadata).transcription,
            llm_corrected: final(metadata).llm_corrected,
            final_text: final(metadata).final_text,
            ..*old(metadata)
        }),
{
    let transcription = match &metadata.transcription {
        Some(t) => t.clone(),
        None => String::new(),
    };
    let llm = match &metadata.llm_corrected {
        Some(t) => Some(t.clone()),
        None => None,
    };
    assert(old(metadata).transcription is None ==> transcription@ =~= Seq::<char>::empty());
    let llm = match &llm {
        Some(t) => Some(t.as_str()),
        None => None,
    };
    set_transcription_result(metadata, transcription.as_str(), llm, Some(final_text));
}

/// The event that reports how far a transcription is.
pub open spec fn progress_event(percent: u8, stage: Seq<char>) -> Act {
    Act::Emit(
        "transcription-progress"@,
        Content::Fields(
            seq![
                ("percent"@, FieldContent::Number(percent as u64)),
                ("stage"@, FieldContent::Text(stage)),
            ],
        ),
    )
}

/// An event of a transcription with one text.
pub open spec fn transcription_event(
    event: Seq<char>,
    field: Seq<char>,
    value: Seq<char>,
) -> Act {
    Act::Emit(event, Content::Fields(seq![(field, FieldContent::Text(value))]))
}

/// Report how far a transcription is.
pub fn report_progress(percent: u8, stage: &str) -> (v: Vec<Action>)
    ensures
        acts(v@) == seq![progress_event(percent, stage@)],
{
    let fields = vec![
        Field { name: "percent".to_owned(), value: FieldValue::Number(percent as u64) },
        Field { name: "stage".to_owned(), value: FieldValue::Text(stage.to_owned()) },
    ];
    assert(fields@.map_values(|x: Field| (x.name@, x.value@)) =~= seq![
        ("percent"@, FieldContent::Number(percent as u64)),
        ("stage"@, FieldContent::Text(stage@)),
    ]);
    let mut v = nothing();
    queue(&mut v, Action::Emit("transcription-progress", Payload::Fields(fields)));
    assert(acts(v@) =~= seq![progress_event(percent, stage@)]);
    v
}

fn report(event: &'static str, field: &str, value: &str) -> (v: Vec<Action>)
    ensures
        acts(v@) == seq![transcription_event(event@, field@, value@)],
{
    let mut v = nothing();
    queue(&mut v, Action::Emit(event, text_field(field, value)));
    assert(acts(v@) =~= seq![transcription_event(event@, field@, value@)]);
    v
}

/// The client that is asked for a correction.
pub enum LlmChoice {
    /// The one of the last correction.
    Cached,
    /// A new one.
    Fresh(LLMClient),
}

/// Whether a correction is tried: it is switched on, and address, key and model are given.
pub open spec fn llm_usable(c: crate::config::AppConfig) -> bool {
    c.llm_enabled && c.llm_api_url@.len() > 0 && c.llm_api_key@.len() > 0 && c.llm_model@.len() > 0
}

/// The client for a configuration.
pub open spec fn llm_choice(ps: PipelineState) -> Option<LlmChoice> {
    let c = ps.config_cache@;
    if !llm_usable(c) {
        None
    } else if ps.cached_llm matches Some(k) && k.is_for(
        c.llm_api_url@,
        c.llm_api_key@,
        c.llm_model@,
    ) {
        Some(LlmChoice::Cached)
    } else {
        Some(
            LlmChoice::Fresh(
                LLMClient {
                    api_url: c.llm_api_url,
                    api_key: c.llm_api_key,
                    model: c.llm_model,
                },
            ),
        )
    }
}

/// Choose the client for a correction, if one is tried.
pub fn run_llm_correction(ps: &PipelineState) -> (r: (Vec<Action>, Option<LlmChoice>))
    ensures
        r.1 == llm_choice(*ps),
        acts(r.0@) == (if r.1 is Some {
            seq![progress_event(100, "llm"@)]
        } else {
            seq![]
        }),
{
    let cfg = ps.config_cache.read_cached();
    if !cfg.llm_enabled || cfg.llm_api_url.as_str().is_empty() || cfg.llm_api_key.as_str().is_empty()
        || cfg.llm_model.as_str().is_empty() {
        return (nothing(), None);
    }
    let v = report_progress(100, "llm");
    if let Some(client) = &ps.cached_llm {
        if client.matches_config(
            cfg.llm_api_url.as_str(),
            cfg.llm_api_key.as_str(),
            cfg.llm_model.as_str(),
        ) {
            return (v, Some(LlmChoice::Cached));
        }
    }
    let client = LLMClient::new(
        cfg.llm_api_url.clone(),
        cfg.llm_api_key.clone(),
        cfg.llm_model.clone(),
    );
    (v, Some(LlmChoice::Fresh(client)))
}

/// A transcription whose result is being put together.
pub struct Transcript {
    pub filename: String,
    pub segments: Vec<Segment>,
    pub transcription: String,
    pub llm_corrected: Option<String>,
}

/// What follows a transcription.
pub enum TranscribeNext {
    /// It is over.
    Done,
    /// The language model is asked for a correction.
    Correct(Transcript, LlmChoice),
    /// The result is written down.
    Write(Transcript),
}

/// The transcript of segments, without a correction.
pub open spec fn raw_transcript(t: Transcript, filename: Seq<char>, segments: Vec<Segment>) -> bool {
    &&& t.filename@ == filename
    &&& t.segments == segments
    &&& t.transcription@ == speech::merged_text(segments@)
    &&& t.llm_corrected is None
}

/// The engine is done with a recording: cancelled, failed, or with its segments.
pub fn run_transcription(
    ps: &PipelineState,
    filename: &str,
    cancelled: bool,
    result: Result<Vec<Segment>, AppError>,
    use_llm: bool,
) -> (r: (Vec<Action>, TranscribeNext))
    ensures
        cancelled ==> {
            &&& r.1 is Done
            &&& acts(r.0@) == seq![
                transcription_event("transcription-cancelled"@, "filename"@, filename@),
            ]
        },
        !cancelled ==> match result {
            Err(_) => {
                &&& r.1 is Done
                &&& acts(r.0@) == seq![
                    transcription_event(
                        "transcription-error"@,
                        "message"@,
                        "转录失败，请查看日志"@,
                    ),
                ]
            },
            Ok(segments) => match (if use_llm {
                llm_choice(*ps)
            } else {
                None
            }) {
                Some(choice) => {
                    &&& acts(r.0@) == seq![progress_event(100, "llm"@)]
                    &&& r.1 matches TranscribeNext::Correct(t, c)
                    &&& raw_transcript(t, filename@, segments)
                    &&& c == choice
                },
                None => {
                    &&& acts(r.0@) == Seq::<Act>::empty()
                    &&& r.1 matches TranscribeNext::Write(t)
                    &&& raw_transcript(t, filename@, segments)
                },
            },
        },
{
    if cancelled {
        return (report("transcription-cancelled", "filename", filename), TranscribeNext::Done);
    }
    let segments = match result {
        Ok(s) => s,
        Err(_) => {
            return (
                report("transcription-error", "message", "转录失败，请查看日志"),
                TranscribeNext::Done,
            );
        },
    };
    let transcription = merge_segments(&segments);
    let t = Transcript {
        filename: filename.to_owned(),
        segments,
        transcription,
        llm_corrected: None,
    };
    if use_llm {
        let step = run_llm_correction(ps);
        match step.1 {
            Some(choice) => (step.0, TranscribeNext::Correct(t, choice)),
            None => (step.0, TranscribeNext::Write(t)),
        }
    } else {
        (nothing(), TranscribeNext::Write(t))
    }
}

/// The language model has answered, or has failed: a failure is reported and leaves the
/// transcription uncorrected.
pub fn transcript_corrected(t: Transcript, reply: Result<String, AppError>) -> (r: (
    Vec<Action>,
    Transcript,
))
    ensures
        match reply {
            Ok(corrected) => {
                &&& r.1 == (Transcript { llm_corrected: Some(corrected), ..t })
                &&& acts(r.0@) == Seq::<Act>::empty()
            },
            Err(_) => {
                &&& r.1 == (Transcript { llm_corrected: None, ..t })
                &&& acts(r.0@) == seq![
                    transcription_event(
                        "transcription-error"@,
                        "message"@,
                        "LLM 纠错失败，已保留原始转录"@,
                    ),
                ]
            },
        },
{
    let mut t = t;
    match reply {
        Ok(corrected) => {
            t.llm_corrected = Some(corrected);
            (nothing(), t)
        },
        Err(_) => {
            t.llm_corrected = None;
            (report("transcription-error", "message", "LLM 纠错失败，已保留原始转录"), t)
        },
    }
}

/// The result of a transcription has been written down, or not.
pub fn transcript_written(filename: &str, written: Result<(), AppError>) -> (v: Vec<Action>)
    ensures
        acts(v@) == (match written {
            Ok(_) => seq![transcription_event("transcription-done"@, "filename"@, filename@)],
            Err(_) => seq![
                transcription_event("transcription-error"@, "message"@, "转录结果写入失败"@),
            ],
        }),
{
    match written {
        Ok(_) => report("transcription-done", "filename", filename),
        Err(_) => report("transcription-error", "message", "转录结果写入失败"),
    }
}

/// What came of a step of pasting into a target window.
pub enum TargetEvent {
    /// The paste is asked for; whether the target is still a window.
    Begin(bool),
    /// The clipboard was saved, or not.
    Saved(Result<(), AppError>),
    /// Whether the target could be given the focus.
    Focused(bool),
    /// The text was pasted, or not.
    Pasted(Result<(), AppError>),
}

/// The next step of pasting into a target window.
pub enum TargetStep {
    /// Save the clipboard.
    Save,
    /// Give the target the focus.
    Focus,
    /// Paste the text.
    Paste(String),
    /// Leave the text in the clipboard, and fail.
    CopyAndFail(String, CommandError),
    /// Fail.
    Fail(CommandError),
    /// Restore the clipboard, and fail.
    RestoreAndFail(CommandError),
    /// Restore the clipboard; the text has been pasted.
    RestoreAndFinish,
}

/// The error of the command is that of a clipboard operation.
pub open spec fn reports(c: CommandError, e: AppError) -> bool {
    c.says(e.category(), e.detail())
}

/// The next step of pasting a text into a target window: the clipboard is saved before the focus
/// changes, and the text stays in the clipboard where the target cannot be reached.
pub fn do_inject(text: &str, event: TargetEvent) -> (step: TargetStep)
    ensures
        match event {
            TargetEvent::Begin(true) => step is Save,
            TargetEvent::Begin(false) => {
                &&& step matches TargetStep::CopyAndFail(t, e)
                &&& t@ == text@
                &&& e.says(
                    "STATE"@,
                    "目标窗口已关闭，文本已复制到剪贴板，请尽快粘贴并覆盖"@,
                )
            },
            TargetEvent::Saved(Ok(_)) => step is Focus,
            TargetEvent::Saved(Err(e)) => step matches TargetStep::Fail(c) && reports(c, e),
            TargetEvent::Focused(true) => step matches TargetStep::Paste(t) && t@ == text@,
            TargetEvent::Focused(false) => {
                &&& step matches TargetStep::CopyAndFail(t, e)
                &&& t@ == text@
                &&& e.says(
                    "STATE"@,
                    "无法聚焦目标窗口，文本已复制到剪贴板，请尽快粘贴并覆盖"@,
                )
            },
            TargetEvent::Pasted(Ok(_)) => step is RestoreAndFinish,
            TargetEvent::Pasted(Err(e)) => step matches TargetStep::RestoreAndFail(c) && reports(
                c,
                e,
            ),
        },
{
    match event {
        TargetEvent::Begin(valid) => {
            if valid {
                TargetStep::Save
            } else {
                TargetStep::CopyAndFail(
                    text.to_owned(),
                    CommandError::state(
                        "目标窗口已关闭，文本已复制到剪贴板，请尽快粘贴并覆盖",
                    ),
                )
            }
        },
        TargetEvent::Saved(saved) => match saved {
            Ok(_) => TargetStep::Focus,
            Err(e) => TargetStep::Fail(CommandError::from(e)),
        },
        TargetEvent::Focused(focused) => {
            if focused {
                TargetStep::Paste(text.to_owned())
            } else {
                TargetStep::CopyAndFail(
                    text.to_owned(),
                    CommandError::state(
                        "无法聚焦目标窗口，文本已复制到剪贴板，请尽快粘贴并覆盖",
                    ),
                )
            }
        },
        TargetEvent::Pasted(pasted) => match pasted {
            Ok(_) => TargetStep::RestoreAndFinish,
            Err(e) => TargetStep::RestoreAndFail(CommandError::from(e)),
        },
    }
}

/// One recording is transcribed at a time: a second one is refused until the first is over, and each
/// has a token of its own that nobody has set yet.
pub proof fn one_transcription_at_a_time(
    p: &mut PendingTranscribe,
    first: Result<CancelToken, CommandError>,
    q: &mut PendingTranscribe,
    second: Result<CancelToken, CommandError>,
    e: &mut PendingTranscribe,
    done: (),
    n: &mut PendingTranscribe,
    third: Result<CancelToken, CommandError>,
)
    requires
        call_ensures(PendingTranscribe::begin_transcription, (p,), first),
        *old(q) == *final(p),
        call_ensures(PendingTranscribe::begin_transcription, (q,), second),
        *old(e) == *final(q),
        call_ensures(PendingTranscribe::end_transcription, (e,), done),
        *old(n) == *final(e),
        call_ensures(PendingTranscribe::begin_transcription, (n,), third),
    ensures
        first is Ok <==> old(p).cancel_token is None,
        first is Ok ==> !first->Ok_0.cancelled && final(p).cancel_token == Some(first->Ok_0),
        second is Err && second->Err_0.code@ == "STATE"@ && *final(q) == *old(q),
        third is Ok && !third->Ok_0.cancelled,
        first is Ok ==> first->Ok_0.id != third->Ok_0.id,
        final(n).hwnd == old(p).hwnd,
{
}

/// Cancelling sets the token of the transcription in flight and stops just that; without one it is
/// refused. Closing the window cancels too, and forgets where to paste.
pub proof fn cancelling_stops_the_transcription_in_flight(
    p: &mut PendingTranscribe,
    r: (Vec<Action>, Result<(), CommandError>),
    c: &mut PendingTranscribe,
    v: Vec<Action>,
)
    requires
        call_ensures(PendingTranscribe::cancel_transcription, (p,), r),
        call_ensures(PendingTranscribe::on_transcribe_window_closed, (c,), v),
    ensures
        r.1 is Ok <==> old(p).cancel_token is Some,
        r.1 is Ok ==> {
            &&& final(p).cancel_token is Some
            &&& final(p).cancel_token->0.cancelled
            &&& final(p).cancel_token->0.id == old(p).cancel_token->0.id
            &&& acts(r.0@).len() == 1
            &&& acts(r.0@)[0] == Act::CancelTranscription(old(p).cancel_token->0.id)
        },
        r.1 is Err ==> r.1->Err_0.code@ == "STATE"@ && r.0@.len() == 0 && *final(p) == *old(p),
        final(p).hwnd == old(p).hwnd && final(p).next_token == old(p).next_token,
        final(c).hwnd is None && final(c).cancel_token is None,
        old(c).cancel_token is Some ==> acts(v@) == seq![
            Act::CancelTranscription(old(c).cancel_token->0.id),
        ],
        old(c).cancel_token is None ==> v@.len() == 0,
{
    assert(acts(r.0@).len() == r.0@.len());
    assert(acts(v@).len() == v@.len());
}

/// A text is pasted, without the space around it, where the user came from, and only once: the
/// target is used up. A blank text, a name that is not that of a recording and a path that leads out
/// of the directory use nothing up.
pub proof fn a_transcript_is_pasted_once(
    p: &mut PendingTranscribe,
    ps: PipelineState,
    filename: &str,
    given: &str,
    json: ChildProbe,
    r: Result<(isize, String, String), CommandError>,
    q: &mut PendingTranscribe,
    again: Result<(isize, String, String), CommandError>,
)
    requires
        call_ensures(
            PendingTranscribe::inject_transcript_text,
            (p, &ps, filename, given, json),
            r,
        ),
        *old(q) == *final(p),
        call_ensures(
            PendingTranscribe::inject_transcript_text,
            (q, &ps, filename, given, json),
            again,
        ),
    ensures
        ({
            let sound = text::trimmed(given@).len() > 0 && text::trimmed(
                ps.config_cache@.data_saving_path@,
            ).len() > 0 && names::valid_stem(filename@) && !(json.canonical matches Some(
                (_, false),
            ));
            &&& r is Ok <==> sound && old(p).hwnd is Some
            &&& r is Ok ==> r->Ok_0.0 == old(p).hwnd->0 && r->Ok_0.2@ == text::trimmed(given@)
            &&& r is Ok ==> r->Ok_0.1 == (match json.canonical {
                Some(c) => c.0,
                None => json.plain,
            })
            &&& r is Ok ==> again is Err && again->Err_0.code@ == "STATE"@
            &&& !sound ==> *final(p) == *old(p) && r->Err_0.code@ == "VALIDATION"@
            &&& final(p).cancel_token == old(p).cancel_token
        }),
{
}

/// The window remembers where the user came from, unless a transcription is in flight.
pub proof fn the_window_remembers_where_the_user_came_from(
    p: &mut PendingTranscribe,
    foreground: isize,
    r: Result<(), CommandError>,
    shown: Option<Result<(), String>>,
    opened: Result<(), CommandError>,
)
    requires
        call_ensures(PendingTranscribe::open_window, (p, foreground), r),
        call_ensures(PendingTranscribe::window_opened, (shown,), opened),
    ensures
        r is Ok <==> old(p).cancel_token is None,
        r is Ok ==> final(p).hwnd == Some(foreground),
        r is Err ==> final(p).hwnd == old(p).hwnd && r->Err_0.code@ == "STATE"@,
        final(p).cancel_token == old(p).cancel_token,
        opened is Ok <==> shown is Some && shown->0 is Ok,
{
}

/// A transcription begins with the samples of the file, in a directory that is configured, for a
/// recording that stays in it; whatever is wrong leaves everything as it was.
pub proof fn a_transcription_begins_with_the_samples(
    p: &mut PendingTranscribe,
    ps: PipelineState,
    filename: &str,
    wav_file: ChildProbe,
    json_file: ChildProbe,
    bytes: Vec<u8>,
    r: Result<TranscribeJob, CommandError>,
    read: Result<(Vec<i16>, u32), CommandError>,
)
    requires
        call_ensures(
            PendingTranscribe::transcribe_recording,
            (p, &ps, filename, wav_file, json_file, Ok(bytes)),
            r,
        ),
        call_ensures(read_wav_samples, (&bytes,), read),
    ensures
        r is Ok <==> text::trimmed(ps.config_cache@.data_saving_path@).len() > 0
            && names::valid_stem(filename@) && !(wav_file.canonical matches Some((_, false))) && !(
        json_file.canonical matches Some((_, false))) && read is Ok && old(p).cancel_token is None,
        r is Ok ==> r->Ok_0.samples@ == read->Ok_0.0@,
        r is Ok ==> r->Ok_0.json_path == (match json_file.canonical {
            Some(c) => c.0,
            None => json_file.plain,
        }),
        r is Ok ==> !r->Ok_0.token.cancelled && final(p).cancel_token == Some(r->Ok_0.token),
        r is Err ==> *final(p) == *old(p),
{
    if r is Ok {
        assert(r->Ok_0.samples@ =~= read->Ok_0.0@) by {
            assert forall|i: int| 0 <= i < r->Ok_0.samples@.len() implies r->Ok_0.samples@[i]
                == read->Ok_0.0@[i] by {
                assert(r->Ok_0.samples@[i] == wav::samples_in(bytes@)[i]);
                assert(read->Ok_0.0@[i] == wav::samples_in(bytes@)[i]);
            }
        }
    }
}

/// A recording that cannot be read is not transcribed.
pub proof fn an_unreadable_recording_is_refused(
    p: &mut PendingTranscribe,
    ps: PipelineState,
    filename: &str,
    wav_file: ChildProbe,
    json_file: ChildProbe,
    e: String,
    r: Result<TranscribeJob, CommandError>,
)
    requires
        call_ensures(
            PendingTranscribe::transcribe_recording,
            (p, &ps, filename, wav_file, json_file, Err(e)),
            r,
        ),
    ensures
        r is Err,
        *final(p) == *old(p),
{
}

/// What is told of the segments of a recording is what is noted: the segments as they are, their
/// duration as far as it can be told, and that it waits for transcription where nothing is noted.
pub proof fn segments_are_told_as_noted(
    ps: PipelineState,
    filename: &str,
    json_file: ChildProbe,
    m: RecordingMetadata,
    r: Result<RecordingSegments, CommandError>,
)
    requires
        call_ensures(get_recording_segments, (&ps, filename, json_file, Ok(m)), r),
    ensures
        r is Ok <==> text::trimmed(ps.config_cache@.data_saving_path@).len() > 0
            && names::valid_stem(filename@) && !(json_file.canonical matches Some((_, false))),
        r is Ok ==> {
            let s = r->Ok_0;
            &&& s.segments@ == m.segments@
            &&& m.duration_ms is Some && m.duration_ms->0 <= u32::MAX ==> s.duration_ms
                == m.duration_ms->0
            &&& m.duration_ms is Some && m.duration_ms->0 > u32::MAX ==> s.duration_ms == u32::MAX
            &&& m.duration_ms is None ==> s.duration_ms == 0
            &&& m.transcription_status is Some ==> s.transcription_status@
                == m.transcription_status->0@
            &&& m.transcription_status is None ==> s.transcription_status@ == "pending"@
            &&& s.dropped_blocks == m.dropped_blocks
        },
{
    if r is Ok {
        assert(r->Ok_0.segments@ =~= m.segments@);
    }
}

/// A pasted text is noted as the final text, and the transcription, its correction and everything
/// else stay.
pub proof fn a_pasted_text_is_noted(m: &mut RecordingMetadata, text: &str, done: ())
    requires
        call_ensures(write_final_text, (m, text), done),
    ensures
        final(m).final_text is Some && final(m).final_text->0@ == text@,
        old(m).transcription is Some ==> final(m).transcription is Some
            && final(m).transcription->0@ == old(m).transcription->0@,
        final(m).llm_corrected is Some <==> old(m).llm_corrected is Some,
        old(m).llm_corrected is Some ==> final(m).llm_corrected->0@ == old(m).llm_corrected->0@,
        final(m).segments == old(m).segments && final(m).timestamp == old(m).timestamp
            && final(m).transcription_status == old(m).transcription_status && final(m).source
            == old(m).source && final(m).duration_ms == old(m).duration_ms,
{
}

/// The texts of the segments make up the transcription. It goes to the language model where that is
/// asked for and set up, and is written down as it is otherwise; a cancelled or failed one is over.
pub proof fn segments_make_up_the_transcription(
    ps: PipelineState,
    filename: &str,
    cancelled: bool,
    result: Result<Vec<Segment>, AppError>,
    use_llm: bool,
    r: (Vec<Action>, TranscribeNext),
    texts: Seq<Seq<char>>,
)
    requires
        call_ensures(run_transcription, (&ps, filename, cancelled, result, use_llm), r),
        result is Ok ==> texts.len() == result->Ok_0@.len() && forall|i: int|
            0 <= i < texts.len() ==> #[trigger] texts[i] == result->Ok_0@[i].text@,
    ensures
        r.1 is Done <==> cancelled || result is Err,
        r.1 is Correct <==> !cancelled && result is Ok && use_llm && ({
            let c = ps.config_cache@;
            c.llm_enabled && c.llm_api_url@.len() > 0 && c.llm_api_key@.len() > 0
                && c.llm_model@.len() > 0
        }),
        r.1 matches TranscribeNext::Correct(t, _) ==> t.transcription@ == texts.flatten()
            && t.segments == result->Ok_0 && t.filename@ == filename@ && t.llm_corrected is None,
        r.1 matches TranscribeNext::Write(t) ==> t.transcription@ == texts.flatten() && t.segments
            == result->Ok_0 && t.filename@ == filename@ && t.llm_corrected is None,
        cancelled ==> acts(r.0@) == seq![
            Act::Emit(
                "transcription-cancelled"@,
                Content::Fields(seq![("filename"@, FieldContent::Text(filename@))]),
            ),
        ],
        !cancelled && result is Err ==> acts(r.0@).len() == 1 && (acts(r.0@)[0] matches Act::Emit(
            name,
            _,
        ) && name == "transcription-error"@),
{
    if result is Ok {
        speech::merged_is_flat(result->Ok_0@, texts);
    }
}

/// A client that was made out to the same address, key and model is used again; otherwise a new one
/// is made out to them.
pub proof fn the_client_fits_the_configuration(
    ps: PipelineState,
    r: (Vec<Action>, Option<LlmChoice>),
)
    requires
        call_ensures(run_llm_correction, (&ps,), r),
    ensures
        ({
            let c = ps.config_cache@;
            let cached = ps.cached_llm;
            let fits = cached is Some && cached->0.api_url@ == c.llm_api_url@ && cached->0.api_key@
                == c.llm_api_key@ && cached->0.model@ == c.llm_model@;
            &&& r.1 is Some <==> c.llm_enabled && c.llm_api_url@.len() > 0 && c.llm_api_key@.len()
                > 0 && c.llm_model@.len() > 0
            &&& r.1 is Some ==> (r.1->0 is Cached <==> fits)
            &&& r.1 is Some && !fits ==> (r.1->0 matches LlmChoice::Fresh(k) && k.api_url
                == c.llm_api_url && k.api_key == c.llm_api_key && k.model == c.llm_model)
        }),
{
}

/// A correction is kept beside the transcription; where it failed, the transcription stays alone.
pub proof fn a_correction_is_kept_beside_the_transcription(
    t: Transcript,
    reply: Result<String, AppError>,
    r: (Vec<Action>, Transcript),
    filename: &str,
    written: Result<(), AppError>,
    v: Vec<Action>,
)
    requires
        call_ensures(transcript_corrected, (t, reply), r),
        call_ensures(transcript_written, (filename, written), v),
    ensures
        r.1.transcription == t.transcription && r.1.segments == t.segments && r.1.filename
            == t.filename,
        reply is Ok ==> r.1.llm_corrected == Some(reply->Ok_0) && r.0@.len() == 0,
        reply is Err ==> r.1.llm_corrected is None && r.0@.len() == 1,
        acts(v@).len() == 1,
        acts(v@)[0] matches Act::Emit(name, _) && name == (if written is Ok {
            "transcription-done"@
        } else {
            "transcription-error"@
        }),
{
    assert(acts(r.0@).len() == r.0@.len());
}

/// A text goes into the target through the clipboard, which is saved before and restored after; where
/// the target is gone or cannot be reached, the text is left in the clipboard.
pub proof fn the_text_reaches_the_target_or_the_clipboard(
    text: &str,
    event: TargetEvent,
    step: TargetStep,
)
    requires
        call_ensures(do_inject, (text, event), step),
    ensures
        event matches TargetEvent::Begin(there) ==> (there <==> step is Save),
        event matches TargetEvent::Saved(saved) ==> (saved is Ok <==> step is Focus) && (saved is Err
            <==> step is Fail),
        event matches TargetEvent::Focused(focused) ==> (focused <==> step is Paste),
        event matches TargetEvent::Pasted(pasted) ==> (pasted is Ok <==> step is RestoreAndFinish)
            && (pasted is Err <==> step is RestoreAndFail),
        event matches TargetEvent::Begin(false) ==> step is CopyAndFail,
        event matches TargetEvent::Focused(false) ==> step is CopyAndFail,
        step matches TargetStep::Paste(t) ==> t@ == text@,
        step matches TargetStep::CopyAndFail(t, _) ==> t@ == text@,
{
}

/// Progress is told as a percentage with the stage that it is of; notes that cannot be read or
/// understood are told as such.
pub proof fn progress_names_its_stage(
    percent: u8,
    stage: &str,
    v: Vec<Action>,
    f: NoteFault,
    e: CommandError,
)
    requires
        call_ensures(report_progress, (percent, stage), v),
        call_ensures(note_error, (f,), e),
    ensures
        acts(v@) == seq![
            Act::Emit(
                "transcription-progress"@,
                Content::Fields(
                    seq![
                        ("percent"@, FieldContent::Number(percent as u64)),
                        ("stage"@, FieldContent::Text(stage@)),
                    ],
                ),
            ),
        ],
        e.code@ == "IO"@,
        f matches NoteFault::Unreadable(m) ==> e.message@ == "failed to read recording metadata: "@
            + m@,
        f matches NoteFault::Unparsable(m) ==> e.message@
            == "failed to parse recording metadata: "@ + m@,
{
}

/// Notes that cannot be used are no segments.
pub proof fn unusable_notes_are_refused(
    ps: PipelineState,
    filename: &str,
    json_file: ChildProbe,
    f: NoteFault,
    r: Result<RecordingSegments, CommandError>,
)
    requires
        call_ensures(get_recording_segments, (&ps, filename, json_file, Err(f)), r),
    ensures
        r is Err,
{
}

/// Two transcriptions, one after the other, have two tokens, so that cancelling one is never taken
/// for cancelling the other.
pub proof fn transcriptions_have_tokens_of_their_own(
    p: &mut PendingTranscribe,
    first: Result<CancelToken, CommandError>,
    e: &mut PendingTranscribe,
    done: (),
    q: &mut PendingTranscribe,
    second: Result<CancelToken, CommandError>,
)
    requires
        old(p).cancel_token is None,
        call_ensures(PendingTranscribe::begin_transcription, (p,), first),
        *old(e) == *final(p),
        call_ensures(PendingTranscribe::end_transcription, (e,), done),
        *old(q) == *final(e),
        call_ensures(PendingTranscribe::begin_transcription, (q,), second),
    ensures
        first is Ok && second is Ok && first->Ok_0.id != second->Ok_0.id,
        !first->Ok_0.cancelled && !second->Ok_0.cancelled,
{
}

} // verus!
