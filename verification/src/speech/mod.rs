//! Speech-to-text engines: segments, engine behaviour that does not depend on a backend, and
//! stand-in engines.

pub mod mock;
pub mod noop;
pub mod whisper;

use crate::audio::TARGET_SAMPLE_RATE;
use crate::error::AppError;
use vstd::prelude::*;

verus! {

/// A transcribed text segment with absolute timestamps in milliseconds.
#[derive(Debug, PartialEq, Eq)]
pub struct Segment {
    pub text: String,
    pub start_ms: u32,
    pub end_ms: u32,
}

impl Clone for Segment {
    fn clone(&self) -> (s: Self)
        ensures
            s == *self,
    {
        Segment { text: self.text.clone(), start_ms: self.start_ms, end_ms: self.end_ms }
    }
}

/// Centiseconds as milliseconds, kept within the range of a 32-bit number.
pub open spec fn ms_of_cs(cs: int) -> int {
    if cs <= 0 {
        0
    } else if 10 * cs > u32::MAX {
        u32::MAX as int
    } else {
        10 * cs
    }
}

/// Centiseconds to milliseconds, clamped to the range of a 32-bit number.
pub fn centiseconds_to_ms(cs: i64) -> (ms: u32)
    ensures
        ms == ms_of_cs(cs as int),
{
    if cs <= 0 {
        0
    } else if cs > 429_496_729 {
        u32::MAX
    } else {
        (cs * 10) as u32
    }
}

impl Segment {
    /// Build a segment from timestamps in centiseconds.
    pub fn from_whisper(text: String, start_cs: i64, end_cs: i64) -> (s: Self)
        ensures
            s.text == text,
            s.start_ms == ms_of_cs(start_cs as int),
            s.end_ms == ms_of_cs(end_cs as int),
    {
        Segment {
            text,
            start_ms: centiseconds_to_ms(start_cs),
            end_ms: centiseconds_to_ms(end_cs),
        }
    }
}

/// Error message used when a transcription is cancelled via its token.
pub const CANCELLED_MESSAGE: &'static str = "transcription cancelled";

/// How long so many samples at the engine's rate last, in milliseconds, kept within the range of a
/// 32-bit number.
pub open spec fn clip_ms(samples: nat) -> int {
    let ms = samples as int * 1000 / TARGET_SAMPLE_RATE as int;
    if ms > u32::MAX {
        u32::MAX as int
    } else {
        ms
    }
}

/// How long so many samples at the engine's rate last, in milliseconds.
pub fn clip_duration_ms(samples: usize) -> (ms: u32)
    ensures
        ms == clip_ms(samples as nat),
{
    let ms: u128 = samples as u128 * 1000 / TARGET_SAMPLE_RATE as u128;
    if ms > u32::MAX as u128 {
        u32::MAX
    } else {
        ms as u32
    }
}

/// The segments of an engine that only yields a text: one that spans the whole clip. A cancelled
/// transcription is an error whatever the engine did.
pub fn whole_clip_segments(
    cancelled: bool,
    text: Result<String, AppError>,
    samples: usize,
) -> (r: Result<Vec<Segment>, AppError>)
    ensures
        match r {
            Ok(v) => !cancelled && text is Ok && v@.len() == 1 && v@[0].text == text->Ok_0
                && v@[0].start_ms == 0 && v@[0].end_ms == clip_ms(samples as nat),
            Err(e) => if cancelled {
                e is Speech && e.detail() == CANCELLED_MESSAGE@
            } else {
                text == Err::<String, AppError>(e)
            },
        },
{
    if cancelled {
        return Err(AppError::Speech(CANCELLED_MESSAGE.to_owned()));
    }
    match text {
        Err(e) => Err(e),
        Ok(text) => {
            let segment = Segment { text, start_ms: 0, end_ms: clip_duration_ms(samples) };
            Ok(vec![segment])
        },
    }
}

/// The same segments, text for text and time for time.
pub open spec fn same_segments(a: Seq<Segment>, b: Seq<Segment>) -> bool {
    a.len() == b.len() && forall|i: int| 0 <= i < a.len() ==> #[trigger] a[i] == b[i]
}

/// The texts of the segments, one after the other.
pub open spec fn merged_text(segments: Seq<Segment>) -> Seq<char>
    decreases segments.len(),
{
    if segments.len() == 0 {
        seq![]
    } else {
        merged_text(segments.drop_last()) + segments.last().text@
    }
}

/// Merge the texts of the segments, one after the other.
pub fn merge_segments(segments: &Vec<Segment>) -> (s: String)
    ensures
        s@ == merged_text(segments@),
{
    let mut s = String::new();
    let mut i: usize = 0;
    while i < segments.len()
        invariant
            i <= segments@.len(),
            s@ == merged_text(segments@.take(i as int)),
        decreases segments@.len() - i,
    {
        assert(segments@.take(i + 1).drop_last() =~= segments@.take(i as int));
        s.append(segments[i].text.as_str());
        i = i + 1;
    }
    assert(segments@.take(i as int) =~= segments@);
    s
}

/// Ten milliseconds are a centisecond; a time before the beginning is the beginning, and one beyond
/// the range of the result is its end.
pub proof fn centiseconds_are_ten_milliseconds(cs: i64, ms: u32)
    requires
        call_ensures(centiseconds_to_ms, (cs,), ms),
    ensures
        0 <= cs && cs * 10 <= u32::MAX ==> ms == cs * 10,
        cs < 0 ==> ms == 0,
        cs * 10 > u32::MAX ==> ms == u32::MAX,
{
}

/// A segment keeps its text and its times, the beginning before the end.
pub proof fn segments_keep_their_times(text: String, start_cs: i64, end_cs: i64, s: Segment)
    requires
        call_ensures(Segment::from_whisper, (text, start_cs, end_cs), s),
    ensures
        s.text@ == text@,
        0 <= start_cs && start_cs * 10 <= u32::MAX ==> s.start_ms == start_cs * 10,
        0 <= end_cs && end_cs * 10 <= u32::MAX ==> s.end_ms == end_cs * 10,
        start_cs < 0 ==> s.start_ms == 0,
        end_cs < 0 ==> s.end_ms == 0,
        start_cs * 10 > u32::MAX ==> s.start_ms == u32::MAX,
        end_cs * 10 > u32::MAX ==> s.end_ms == u32::MAX,
        start_cs <= end_cs ==> s.start_ms <= s.end_ms,
{
}

/// Sixteen samples last a millisecond.
pub proof fn sixteen_samples_last_a_millisecond(samples: usize, ms: u32)
    requires
        call_ensures(clip_duration_ms, (samples,), ms),
    ensures
        samples < 16 * 0x1_0000_0000 ==> 16 * ms <= samples < 16 * (ms + 1),
        samples >= 16 * 0x1_0000_0000 ==> ms == u32::MAX,
{
}

/// An engine that only yields a text yields one segment, from the beginning of the clip to its end.
pub proof fn one_segment_spans_the_clip(
    cancelled: bool,
    text: Result<String, AppError>,
    samples: usize,
    r: Result<Vec<Segment>, AppError>,
)
    requires
        call_ensures(whole_clip_segments, (cancelled, text, samples), r),
    ensures
        r is Ok <==> !cancelled && text is Ok,
        r matches Ok(v) ==> v@.len() == 1 && v@[0].text == text->Ok_0 && v@[0].start_ms == 0 && (
        samples < 16 * 0x1_0000_0000 ==> 16 * v@[0].end_ms <= samples < 16 * (v@[0].end_ms + 1)),
        cancelled ==> r->Err_0 is Speech && r->Err_0.detail() == "transcription cancelled"@,
        !cancelled && text is Err ==> r->Err_0 == text->Err_0,
{
}

/// Merged segments hold the text of each as it is, one after the other.
pub proof fn merging_joins_the_texts(segments: Vec<Segment>, texts: Seq<Seq<char>>, s: String)
    requires
        call_ensures(merge_segments, (&segments,), s),
        texts.len() == segments@.len(),
        forall|i: int| 0 <= i < texts.len() ==> #[trigger] texts[i] == segments@[i].text@,
    ensures
        s@ == texts.flatten(),
{
    merged_is_flat(segments@, texts);
}

/// The merged text is the texts joined.
pub proof fn merged_is_flat(segments: Seq<Segment>, texts: Seq<Seq<char>>)
    requires
        texts.len() == segments.len(),
        forall|i: int| 0 <= i < texts.len() ==> #[trigger] texts[i] == segments[i].text@,
    ensures
        merged_text(segments) == texts.flatten(),
    decreases segments.len(),
{
    if segments.len() > 0 {
        let before = texts.drop_last();
        assert forall|i: int| 0 <= i < before.len() implies #[trigger] before[i]
            == segments.drop_last()[i].text@ by {
            assert(before[i] == texts[i]);
        }
        merged_is_flat(segments.drop_last(), before);
        assert(before.push(texts.last()) =~= texts);
        before.lemma_flatten_push(texts.last());
    } else {
        assert(texts.flatten() =~= Seq::<char>::empty());
    }
}

} // verus!
