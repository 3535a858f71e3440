//! Saved recordings: what is saved and what is noted about it.

use crate::config::{AppConfig, Language, WhisperModel};
use crate::speech;
use crate::speech::Segment;
use crate::text;
use vstd::prelude::*;

verus! {

/// Result of saving audio data: the paths of the two files.
pub struct SaveResult {
    /// Path to the saved WAV file.
    pub wav_path: String,
    /// Path to the saved JSON metadata file.
    pub json_path: String,
}

/// Minimal configuration needed for data saving.
pub struct SaveConfig {
    pub enabled: bool,
    pub path: String,
    pub language: Language,
    pub whisper_model: WhisperModel,
}

impl Clone for SaveConfig {
    fn clone(&self) -> (c: Self)
        ensures
            c == *self,
    {
        SaveConfig {
            enabled: self.enabled,
            path: self.path.clone(),
            language: self.language,
            whisper_model: self.whisper_model.clone(),
        }
    }
}

/// The data-saving part of a configuration.
pub open spec fn save_config_of(c: AppConfig) -> SaveConfig {
    SaveConfig {
        enabled: c.data_saving_enabled,
        path: c.data_saving_path,
        language: c.language,
        whisper_model: c.whisper_model,
    }
}

impl SaveConfig {
    /// Extract the data-saving fields of a configuration.
    pub fn from_app_config(config: &AppConfig) -> (s: Self)
        ensures
            s == save_config_of(*config),
    {
        SaveConfig {
            enabled: config.data_saving_enabled,
            path: config.data_saving_path.clone(),
            language: config.language,
            whisper_model: config.whisper_model.clone(),
        }
    }

    /// Whether recordings are saved: saving is switched on and has a directory.
    pub open spec fn saves(self) -> bool {
        self.enabled && self.path@.len() > 0
    }

    /// Whether recordings are saved: saving is switched on and has a directory.
    pub fn is_active(&self) -> (r: bool)
        ensures
            r == self.saves(),
    {
        self.enabled && !self.path.as_str().is_empty()
    }
}

/// What is noted about a recording. Anything may be missing in a file of an older version; a
/// duration is given in milliseconds.
pub struct RecordingMetadata {
    pub timestamp: Option<String>,
    pub language: Option<Language>,
    pub whisper_model: Option<WhisperModel>,
    pub sample_rate: Option<u32>,
    pub original_sample_rate: Option<u32>,
    pub duration_ms: Option<u64>,
    pub transcription: Option<String>,
    pub llm_corrected: Option<String>,
    pub final_text: Option<String>,
    pub segments: Vec<Segment>,
    pub transcription_status: Option<String>,
    /// "classic" or "record_only"; a missing one stands for "classic".
    pub source: Option<String>,
    pub dropped_blocks: u64,
}

/// Nothing is noted.
pub open spec fn blank(m: RecordingMetadata) -> bool {
    &&& m.timestamp is None
    &&& m.language is None
    &&& m.whisper_model is None
    &&& m.sample_rate is None
    &&& m.original_sample_rate is None
    &&& m.duration_ms is None
    &&& m.transcription is None
    &&& m.llm_corrected is None
    &&& m.final_text is None
    &&& m.segments@.len() == 0
    &&& m.transcription_status is None
    &&& m.source is None
    &&& m.dropped_blocks == 0
}

impl Default for RecordingMetadata {
    fn default() -> (m: Self)
        ensures
            blank(m),
    {
        RecordingMetadata {
            timestamp: None,
            language: None,
            whisper_model: None,
            sample_rate: None,
            original_sample_rate: None,
            duration_ms: None,
            transcription: None,
            llm_corrected: None,
            final_text: None,
            segments: Vec::new(),
            transcription_status: None,
            source: None,
            dropped_blocks: 0,
        }
    }
}

/// The view of an optional text.
pub open spec fn text_of(s: Option<String>) -> Option<Seq<char>> {
    match s {
        Some(t) => Some(t@),
        None => None,
    }
}

/// The view of an optional borrowed text.
pub open spec fn str_of(s: Option<&str>) -> Option<Seq<char>> {
    match s {
        Some(t) => Some(t@),
        None => None,
    }
}

/// An owned copy of an optional text.
pub fn owned(s: Option<&str>) -> (r: Option<String>)
    ensures
        text_of(r) == str_of(s),
{
    match s {
        Some(t) => Some(t.to_owned()),
        None => None,
    }
}

/// Note the texts of a recording; everything else stays.
pub fn set_transcription_result(
    metadata: &mut RecordingMetadata,
    transcription: &str,
    llm_corrected: Option<&str>,
    final_text: Option<&str>,
)
    ensures
        *final(metadata) == (RecordingMetadata {
            transcription: final(metadata).transcription,
            llm_corrected: final(metadata).llm_corrected,
            final_text: final(metadata).final_text,
            ..*old(metadata)
        }),
        text_of(final(metadata).transcription) == Some(transcription@),
        text_of(final(metadata).llm_corrected) == str_of(llm_corrected),
        text_of(final(metadata).final_text) == str_of(final_text),
{
    metadata.transcription = Some(transcription.to_owned());
    metadata.llm_corrected = owned(llm_corrected);
    metadata.final_text = owned(final_text);
}

/// A copy of segments.
pub fn copy_segments(segments: &Vec<Segment>) -> (v: Vec<Segment>)
    ensures
        speech::same_segments(v@, segments@),
{
    let mut v: Vec<Segment> = Vec::new();
    let mut i: usize = 0;
    while i < segments.len()
        invariant
            i <= segments@.len(),
            v@.len() == i,
            forall|k: int| 0 <= k < i ==> #[trigger] v@[k] == segments@[k],
        decreases segments@.len() - i,
    {
        v.push(segments[i].clone());
        i = i + 1;
    }
    v
}

/// Note the segments of a recording and their merged text, and that it is transcribed; everything
/// else stays.
pub fn set_segment_result(
    metadata: &mut RecordingMetadata,
    segments: &Vec<Segment>,
    transcription: &str,
    llm_corrected: Option<&str>,
)
    ensures
        *final(metadata) == (RecordingMetadata {
            segments: final(metadata).segments,
            transcription: final(metadata).transcription,
            llm_corrected: final(metadata).llm_corrected,
            transcription_status: final(metadata).transcription_status,
            ..*old(metadata)
        }),
        speech::same_segments(final(metadata).segments@, segments@),
        text_of(final(metadata).transcription) == Some(transcription@),
        text_of(final(metadata).llm_corrected) == str_of(llm_corrected),
        text_of(final(metadata).transcription_status) == Some("done"@),
{
    metadata.segments = copy_segments(segments);
    metadata.transcription = Some(transcription.to_owned());
    metadata.llm_corrected = owned(llm_corrected);
    metadata.transcription_status = Some("done".to_owned());
}

/// What is noted about a fresh recording of the dictation pipeline.
pub fn classic_metadata(
    config: &SaveConfig,
    timestamp: String,
    original_sample_rate: u32,
    duration_ms: u64,
) -> (m: RecordingMetadata)
    ensures
        m.timestamp == Some(timestamp),
        m.language == Some(config.language),
        m.whisper_model == Some(config.whisper_model),
        m.sample_rate == Some(16_000u32),
        m.original_sample_rate == Some(original_sample_rate),
        m.duration_ms == Some(duration_ms),
        m.transcription is None,
        m.llm_corrected is None,
        m.final_text is None,
        m.segments@.len() == 0,
        m.transcription_status is None,
        m.source is None,
        m.dropped_blocks == 0,
{
    let mut m = RecordingMetadata::default();
    m.timestamp = Some(timestamp);
    m.language = Some(config.language);
    m.whisper_model = Some(config.whisper_model.clone());
    m.sample_rate = Some(16_000);
    m.original_sample_rate = Some(original_sample_rate);
    m.duration_ms = Some(duration_ms);
    m
}

/// A number below a hundred as two digits.
pub open spec fn two_digits(n: nat) -> Seq<char> {
    seq![text::digit(n / 10 % 10), text::digit(n % 10)]
}

/// The name of a recording made at a point in time, `YYYY-MM-DD_HH-MM-SS`.
pub open spec fn stem_at(
    year: nat,
    month: nat,
    day: nat,
    hour: nat,
    minute: nat,
    second: nat,
) -> Seq<char> {
    two_digits(year / 100) + two_digits(year % 100) + seq!['-'] + two_digits(month) + seq!['-']
        + two_digits(day) + seq!['_'] + two_digits(hour) + seq!['-'] + two_digits(minute) + seq![
        '-',
    ] + two_digits(second)
}

fn push_two_digits(s: &mut String, n: u32)
    requires
        n < 100,
    ensures
        final(s)@ == old(s)@ + two_digits(n as nat),
{
    s.push(text::digit_char((n / 10) as u64));
    s.push(text::digit_char((n % 10) as u64));
    assert(s@ =~= old(s)@ + two_digits(n as nat));
}

fn push_char(s: &mut String, c: char)
    ensures
        final(s)@ == old(s)@ + seq![c],
{
    s.push(c);
    assert(s@ =~= old(s)@ + seq![c]);
}

/// The name of a recording made at a point in local time.
pub fn timestamp_stem(year: u32, month: u32, day: u32, hour: u32, minute: u32, second: u32) -> (s:
    String)
    requires
        year < 10_000,
        1 <= month <= 12,
        1 <= day <= 31,
        hour < 24,
        minute < 60,
        second < 61,
    ensures
        s@ == stem_at(
            year as nat,
            month as nat,
            day as nat,
            hour as nat,
            minute as nat,
            second as nat,
        ),
{
    let mut s = String::new();
    push_two_digits(&mut s, year / 100);
    push_two_digits(&mut s, year % 100);
    push_char(&mut s, '-');
    push_two_digits(&mut s, month);
    push_char(&mut s, '-');
    push_two_digits(&mut s, day);
    push_char(&mut s, '_');
    push_two_digits(&mut s, hour);
    push_char(&mut s, '-');
    push_two_digits(&mut s, minute);
    push_char(&mut s, '-');
    push_two_digits(&mut s, second);
    assert(s@ =~= stem_at(
        year as nat,
        month as nat,
        day as nat,
        hour as nat,
        minute as nat,
        second as nat,
    ));
    s
}

/// The name of a recording tells when it was made: the year in four digits, then month, day, hour,
/// minute and second in two each, in this order.
pub proof fn names_tell_the_time(
    year: u32,
    month: u32,
    day: u32,
    hour: u32,
    minute: u32,
    second: u32,
    s: String,
)
    requires
        year < 10_000,
        1 <= month <= 12,
        1 <= day <= 31,
        hour < 24,
        minute < 60,
        second < 61,
        call_ensures(timestamp_stem, (year, month, day, hour, minute, second), s),
    ensures
        s@.len() == 19,
        text::number_meant(s@.subrange(0, 4)) == year,
        s@[4] == '-',
        text::number_meant(s@.subrange(5, 7)) == month,
        s@[7] == '-',
        text::number_meant(s@.subrange(8, 10)) == day,
        s@[10] == '_',
        text::number_meant(s@.subrange(11, 13)) == hour,
        s@[13] == '-',
        text::number_meant(s@.subrange(14, 16)) == minute,
        s@[16] == '-',
        text::number_meant(s@.subrange(17, 19)) == second,
{
    let y = year as nat;
    two_digits_mean(y / 100);
    two_digits_mean(y % 100);
    two_digits_mean(month as nat);
    two_digits_mean(day as nat);
    two_digits_mean(hour as nat);
    two_digits_mean(minute as nat);
    two_digits_mean(second as nat);
    four_digits_mean(y);
    assert(s@.subrange(0, 4) =~= two_digits(y / 100) + two_digits(y % 100));
    assert(s@.subrange(5, 7) =~= two_digits(month as nat));
    assert(s@.subrange(8, 10) =~= two_digits(day as nat));
    assert(s@.subrange(11, 13) =~= two_digits(hour as nat));
    assert(s@.subrange(14, 16) =~= two_digits(minute as nat));
    assert(s@.subrange(17, 19) =~= two_digits(second as nat));
}

proof fn two_digits_mean(n: nat)
    requires
        n < 100,
    ensures
        text::number_meant(two_digits(n)) == n,
{
    reveal_with_fuel(text::number_meant, 3);
    let d = two_digits(n);
    assert(d.drop_last() =~= seq![text::digit(n / 10 % 10)]);
    assert(d.drop_last().drop_last() =~= Seq::<char>::empty());
}

proof fn four_digits_mean(n: nat)
    requires
        n < 10_000,
    ensures
        text::number_meant(two_digits(n / 100) + two_digits(n % 100)) == n,
{
    reveal_with_fuel(text::number_meant, 5);
    let d = two_digits(n / 100) + two_digits(n % 100);
    let (a, b) = (n / 100, n % 100);
    assert(d.drop_last() =~= seq![
        text::digit(a / 10 % 10),
        text::digit(a % 10),
        text::digit(b / 10 % 10),
    ]);
    assert(d.drop_last().drop_last() =~= seq![text::digit(a / 10 % 10), text::digit(a % 10)]);
    assert(d.drop_last().drop_last().drop_last() =~= seq![text::digit(a / 10 % 10)]);
    assert(d.drop_last().drop_last().drop_last().drop_last() =~= Seq::<char>::empty());
}

/// The texts of a recording are noted as they are, each in its place, and nothing else changes.
pub proof fn texts_are_noted_as_they_are(
    m: &mut RecordingMetadata,
    transcription: &str,
    llm_corrected: Option<&str>,
    final_text: Option<&str>,
    done: (),
)
    requires
        call_ensures(
            set_transcription_result,
            (m, transcription, llm_corrected, final_text),
            done,
        ),
    ensures
        final(m).transcription is Some && final(m).transcription->0@ == transcription@,
        final(m).llm_corrected is Some <==> llm_corrected is Some,
        llm_corrected is Some ==> final(m).llm_corrected->0@ == llm_corrected->0@,
        final(m).final_text is Some <==> final_text is Some,
        final_text is Some ==> final(m).final_text->0@ == final_text->0@,
        final(m).timestamp == old(m).timestamp && final(m).segments == old(m).segments
            && final(m).transcription_status == old(m).transcription_status && final(m).source
            == old(m).source && final(m).duration_ms == old(m).duration_ms && final(m).language
            == old(m).language && final(m).dropped_blocks == old(m).dropped_blocks,
{
}

/// The segments of a recording are noted as they are, with their text, and that it is done.
pub proof fn segments_are_noted_as_they_are(
    m: &mut RecordingMetadata,
    segments: Vec<Segment>,
    transcription: &str,
    llm_corrected: Option<&str>,
    done: (),
)
    requires
        call_ensures(set_segment_result, (m, &segments, transcription, llm_corrected), done),
    ensures
        final(m).segments@ == segments@,
        final(m).transcription is Some && final(m).transcription->0@ == transcription@,
        final(m).llm_corrected is Some <==> llm_corrected is Some,
        llm_corrected is Some ==> final(m).llm_corrected->0@ == llm_corrected->0@,
        final(m).transcription_status is Some && final(m).transcription_status->0@ == "done"@,
        final(m).final_text == old(m).final_text && final(m).timestamp == old(m).timestamp
            && final(m).source == old(m).source && final(m).duration_ms == old(m).duration_ms
            && final(m).dropped_blocks == old(m).dropped_blocks,
{
    assert(final(m).segments@ =~= segments@);
}

/// Recordings are saved where that is switched on and there is a directory; what is noted about a
/// fresh one is when and how it was made, and no text.
pub proof fn recordings_are_saved_where_asked(
    config: AppConfig,
    s: SaveConfig,
    active: bool,
    timestamp: String,
    rate: u32,
    duration_ms: u64,
    m: RecordingMetadata,
)
    requires
        call_ensures(SaveConfig::from_app_config, (&config,), s),
        call_ensures(SaveConfig::is_active, (&s,), active),
        call_ensures(classic_metadata, (&s, timestamp, rate, duration_ms), m),
    ensures
        active <==> config.data_saving_enabled && config.data_saving_path@.len() > 0,
        s.path == config.data_saving_path,
        m.timestamp == Some(timestamp),
        m.language == Some(config.language) && m.whisper_model == Some(config.whisper_model),
        m.sample_rate == Some(16_000u32) && m.original_sample_rate == Some(rate),
        m.duration_ms == Some(duration_ms),
        m.transcription is None && m.llm_corrected is None && m.final_text is None,
        m.source is None && m.transcription_status is None && m.dropped_blocks == 0,
{
}

} // verus!
