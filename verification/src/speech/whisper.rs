//! What the Whisper backend is told and what becomes of its answers.

use crate::config::Language;
use crate::error::AppError;
use crate::perf;
use crate::speech;
use crate::speech::{Segment, CANCELLED_MESSAGE};
use crate::text;
use vstd::prelude::*;

verus! {

/// The sentence that anchors the output language; none for English.
pub open spec fn language_anchor(lang: Language) -> Option<Seq<char>> {
    match lang {
        Language::Zh => Some("以下是普通话的句子。"@),
        Language::Ja => Some("以下は日本語の文章です。"@),
        Language::Ko => Some("다음은 한국어 문장입니다."@),
        Language::En => None,
    }
}

/// Returns an initial prompt to anchor the output language.
pub fn initial_prompt_for_lang(lang: Language) -> (p: Option<&'static str>)
    ensures
        match language_anchor(lang) {
            Some(a) => p matches Some(s) && s@ == a,
            None => p is None,
        },
{
    match lang {
        Language::Zh => Some("以下是普通话的句子。"),
        Language::Ja => Some("以下は日本語の文章です。"),
        Language::Ko => Some("다음은 한국어 문장입니다."),
        Language::En => None,
    }
}

/// Number of engine states kept ready.
pub const STATE_POOL_SIZE: usize = 2;

/// Maximum characters of confirmed text that go into the prompt.
pub const MAX_CONTEXT_CHARS: usize = 50;

/// Take the last `n` characters from `text`.
pub fn last_n_chars(text: &str, n: usize) -> (s: String)
    ensures
        s@ == perf::last_of(text@, n as nat),
{
    let v = text::chars_of(text);
    let from: usize = if v.len() <= n {
        0
    } else {
        v.len() - n
    };
    let s = text::text_between(&v, from, v.len());
    assert(s@ =~= perf::last_of(text@, n as nat));
    s
}

/// The prompt for a language and the text confirmed so far: the anchor, then the end of the text.
pub open spec fn prompt_for(lang: Language, context: Option<Seq<char>>) -> Seq<char> {
    (match language_anchor(lang) {
        Some(a) => a,
        None => seq![],
    }) + (match context {
        Some(c) => perf::last_of(c, MAX_CONTEXT_CHARS as nat),
        None => seq![],
    })
}

/// The prompt for a transcription with prior context; none where it would be empty.
pub fn context_prompt(lang: Language, context: Option<&str>) -> (p: Option<String>)
    ensures
        ({
            let wanted = prompt_for(
                lang,
                match context {
                    Some(c) => Some(c@),
                    None => None,
                },
            );
            match p {
                Some(s) => s@ == wanted && s@.len() > 0,
                None => wanted.len() == 0,
            }
        }),
{
    let mut prompt = match initial_prompt_for_lang(lang) {
        Some(a) => a.to_owned(),
        None => String::new(),
    };
    if let Some(c) = context {
        let tail = last_n_chars(c, MAX_CONTEXT_CHARS);
        prompt.append(tail.as_str());
    }
    assert(prompt@ =~= prompt_for(
        lang,
        match context {
            Some(c) => Some(c@),
            None => None,
        },
    ));
    if prompt.as_str().is_empty() {
        None
    } else {
        Some(prompt)
    }
}

/// One segment as the backend gives it: whether it takes it for silence, its text or the rendered
/// reason why there is none, and its time span in centiseconds.
pub struct RawSegment {
    pub no_speech: bool,
    pub text: Result<String, String>,
    pub start_cs: i64,
    pub end_cs: i64,
}

/// The texts of the segments that are not silence, one after the other, or the reason why one of
/// them has none.
pub open spec fn spoken_text(raw: Seq<RawSegment>) -> Result<Seq<char>, Seq<char>>
    decreases raw.len(),
{
    if raw.len() == 0 {
        Ok(seq![])
    } else {
        match spoken_text(raw.drop_last()) {
            Err(e) => Err(e),
            Ok(before) => if raw.last().no_speech {
                Ok(before)
            } else {
                match raw.last().text {
                    Ok(t) => Ok(before + t@),
                    Err(e) => Err(e@),
                }
            },
        }
    }
}

/// The text of a transcription: that of the segments that are not silence, trimmed.
pub fn collect_text(raw: &Vec<RawSegment>) -> (r: Result<String, AppError>)
    ensures
        match r {
            Ok(s) => spoken_text(raw@) is Ok && s@ == text::trimmed(spoken_text(raw@)->Ok_0),
            Err(e) => spoken_text(raw@) is Err && e is Speech && e.detail()
                == "segment text failed: "@ + spoken_text(raw@)->Err_0,
        },
{
    let mut out = String::new();
    let mut i: usize = 0;
    while i < raw.len()
        invariant
            i <= raw@.len(),
            spoken_text(raw@.take(i as int)) == Ok::<Seq<char>, Seq<char>>(out@),
        decreases raw@.len() - i,
    {
        assert(raw@.take(i + 1).drop_last() =~= raw@.take(i as int));
        if !raw[i].no_speech {
            match &raw[i].text {
                Ok(t) => {
                    out.append(t.as_str());
                },
                Err(e) => {
                    proof {
                        first_error_decides(raw@, i + 1);
                    }
                    return Err(
                        AppError::Speech("segment text failed: ".to_owned().concat(e.as_str())),
                    );
                },
            }
        }
        i = i + 1;
    }
    assert(raw@.take(i as int) =~= raw@);
    Ok(text::trim(out.as_str()))
}

proof fn first_error_decides(raw: Seq<RawSegment>, i: int)
    requires
        0 <= i <= raw.len(),
        spoken_text(raw.take(i)) is Err,
    ensures
        spoken_text(raw) == spoken_text(raw.take(i)),
    decreases raw.len(),
{
    if i < raw.len() {
        assert(raw.drop_last().take(i) =~= raw.take(i));
        first_error_decides(raw.drop_last(), i);
    } else {
        assert(raw.take(i) =~= raw);
    }
}

/// Whether a segment goes into the result: it is not silence and its text is not blank.
pub open spec fn kept(s: RawSegment) -> bool {
    !s.no_speech && s.text is Ok && text::trimmed(s.text->Ok_0@).len() > 0
}

/// A segment that is not silence has no text.
pub open spec fn unreadable(s: RawSegment) -> bool {
    !s.no_speech && s.text is Err
}

/// `seg` is the kept segment `s`: trimmed, with its times in milliseconds.
pub open spec fn converted(s: RawSegment, seg: Segment) -> bool {
    &&& s.text is Ok
    &&& seg.text@ == text::trimmed(s.text->Ok_0@)
    &&& seg.start_ms == speech::ms_of_cs(s.start_cs as int)
    &&& seg.end_ms == speech::ms_of_cs(s.end_cs as int)
}

/// The segments are the kept ones of the backend, in order.
pub open spec fn collected(raw: Seq<RawSegment>, segments: Seq<Segment>) -> bool
    decreases raw.len(),
{
    if raw.len() == 0 {
        segments.len() == 0
    } else if kept(raw.last()) {
        segments.len() > 0 && converted(raw.last(), segments.last()) && collected(
            raw.drop_last(),
            segments.drop_last(),
        )
    } else {
        collected(raw.drop_last(), segments)
    }
}

/// The segments of a transcription: those that are neither silence nor blank. A cancelled
/// transcription, a failed one and one with an unreadable segment are errors.
pub fn collect_segments(
    run: Result<(), String>,
    cancelled: bool,
    raw: &Vec<RawSegment>,
) -> (r: Result<Vec<Segment>, AppError>)
    ensures
        match run {
            Err(m) => r matches Err(e) && e is Speech && e.detail() == "transcription failed: "@
                + m@,
            Ok(_) => if cancelled {
                r matches Err(e) && e is Speech && e.detail() == CANCELLED_MESSAGE@
            } else {
                match r {
                    Ok(v) => collected(raw@, v@) && forall|i: int|
                        0 <= i < raw@.len() ==> !unreadable(#[trigger] raw@[i]),
                    Err(e) => e is Speech && exists|i: int|
                        0 <= i < raw@.len() && unreadable(#[trigger] raw@[i]) && (forall|j: int|
                            0 <= j < i ==> !unreadable(#[trigger] raw@[j])) && e.detail()
                            == "segment text failed: "@ + raw@[i].text->Err_0@,
                }
            },
        },
{
    if let Err(m) = run {
        return Err(AppError::Speech("transcription failed: ".to_owned().concat(m.as_str())));
    }
    if cancelled {
        return Err(AppError::Speech(CANCELLED_MESSAGE.to_owned()));
    }
    let mut v: Vec<Segment> = Vec::new();
    let mut i: usize = 0;
    while i < raw.len()
        invariant
            i <= raw@.len(),
            run is Ok,
            !cancelled,
            collected(raw@.take(i as int), v@),
            forall|j: int| 0 <= j < i ==> !unreadable(#[trigger] raw@[j]),
        decreases raw@.len() - i,
    {
        assert(raw@.take(i + 1).drop_last() =~= raw@.take(i as int));
        if !raw[i].no_speech {
            match &raw[i].text {
                Err(e) => {
                    assert(unreadable(raw@[i as int]));
                    return Err(
                        AppError::Speech("segment text failed: ".to_owned().concat(e.as_str())),
                    );
                },
                Ok(t) => {
                    let trimmed = text::trim(t.as_str());
                    if !trimmed.as_str().is_empty() {
                        let ghost before = v@;
                        v.push(Segment::from_whisper(trimmed, raw[i].start_cs, raw[i].end_cs));
                        assert(v@.drop_last() =~= before);
                    }
                },
            }
        }
        i = i + 1;
    }
    assert(raw@.take(i as int) =~= raw@);
    Ok(v)
}

/// The outcome of a transcription that can be cancelled: whatever the backend returned, a
/// cancelled one counts as cancelled.
pub fn cancelable_outcome(cancelled: bool, result: Result<String, AppError>) -> (r: Result<
    String,
    AppError,
>)
    ensures
        if cancelled {
            r matches Err(e) && e is Speech && e.detail() == CANCELLED_MESSAGE@
        } else {
            r == result
        },
{
    if cancelled {
        Err(AppError::Speech(CANCELLED_MESSAGE.to_owned()))
    } else {
        result
    }
}

/// A progress report as a percentage.
pub fn progress_percent(p: i32) -> (r: u8)
    ensures
        r == (if p < 0 {
            0
        } else if p > 100 {
            100
        } else {
            p as int
        }),
{
    if p < 0 {
        0
    } else if p > 100 {
        100
    } else {
        p as u8
    }
}

/// Engine states kept for reuse.
pub struct StatePool<S> {
    states: Vec<S>,
}

impl<S> StatePool<S> {
    /// The states at hand, the next one to be used last.
    pub closed spec fn held(self) -> Seq<S> {
        self.states@
    }

    /// The pool holds no more states than are kept ready.
    pub open spec fn wf(self) -> bool {
        self.held().len() <= STATE_POOL_SIZE
    }

    pub fn new() -> (p: Self)
        ensures
            p.wf(),
            p.held() == Seq::<S>::empty(),
    {
        StatePool { states: Vec::new() }
    }

    /// Take a state out, if there is one; the caller makes a new one otherwise.
    pub fn pop_state(&mut self) -> (s: Option<S>)
        ensures
            old(self).wf() ==> final(self).wf(),
            old(self).held().len() == 0 ==> s is None && final(self).held() == old(self).held(),
            old(self).held().len() > 0 ==> s == Some(old(self).held().last())
                && final(self).held() == old(self).held().drop_last(),
    {
        self.states.pop()
    }

    /// Put a state back; one too many is given back to be dropped.
    pub fn push_state(&mut self, state: S) -> (spare: Option<S>)
        ensures
            old(self).wf() ==> final(self).wf(),
            old(self).held().len() < STATE_POOL_SIZE ==> spare is None && final(self).held()
                == old(self).held().push(state),
            old(self).held().len() >= STATE_POOL_SIZE ==> spare == Some(state)
                && final(self).held() == old(self).held(),
    {
        if self.states.len() < STATE_POOL_SIZE {
            self.states.push(state);
            None
        } else {
            Some(state)
        }
    }
}

/// How a loaded model computes.
#[derive(Debug, Clone, Copy, PartialEq, Eq, Structural)]
pub enum LoadedOn {
    Gpu,
    Cpu,
}

/// The outcome of loading a model: the GPU is tried first, then the CPU. `gpu` and `cpu` are the
/// outcomes of the two attempts; the second is only looked at when the first failed.
pub fn load_outcome(
    model_exists: bool,
    path: &str,
    gpu: Result<(), String>,
    cpu: Result<(), String>,
) -> (r: Result<LoadedOn, AppError>)
    ensures
        match r {
            Ok(LoadedOn::Gpu) => model_exists && gpu is Ok,
            Ok(LoadedOn::Cpu) => model_exists && gpu is Err && cpu is Ok,
            Err(e) => e is Speech && (if !model_exists {
                e.detail() == "model file not found: "@ + path@
            } else {
                gpu is Err && cpu is Err && e.detail() == "failed to load model (GPU and CPU): "@
                    + cpu->Err_0@
            }),
        },
{
    if !model_exists {
        return Err(AppError::Speech("model file not found: ".to_owned().concat(path)));
    }
    match gpu {
        Ok(_) => Ok(LoadedOn::Gpu),
        Err(_) => match cpu {
            Ok(_) => Ok(LoadedOn::Cpu),
            Err(e) => Err(
                AppError::Speech(
                    "failed to load model (GPU and CPU): ".to_owned().concat(e.as_str()),
                ),
            ),
        },
    }
}

/// The badge of an engine: how its model computes, or that none is loaded.
pub fn compute_mode(loaded: Option<LoadedOn>) -> (s: &'static str)
    ensures
        s@ == (match loaded {
            None => "unloaded"@,
            Some(LoadedOn::Gpu) => "gpu"@,
            Some(LoadedOn::Cpu) => "cpu"@,
        }),
{
    match loaded {
        None => "unloaded",
        Some(LoadedOn::Gpu) => "gpu",
        Some(LoadedOn::Cpu) => "cpu",
    }
}

/// The text of a transcription is made of the texts of its segments as they are, silence left out;
/// only the whole is trimmed. The first segment whose text is missing fails it.
pub proof fn spoken_texts_are_joined_as_they_are(
    raw: Vec<RawSegment>,
    pieces: Seq<Seq<char>>,
    r: Result<String, AppError>,
)
    requires
        call_ensures(collect_text, (&raw,), r),
        pieces.len() == raw@.len(),
        forall|i: int|
            0 <= i < raw@.len() ==> {
                ||| (#[trigger] raw@[i]).no_speech && pieces[i].len() == 0
                ||| !raw@[i].no_speech && raw@[i].text is Ok && pieces[i] == raw@[i].text->Ok_0@
            },
    ensures
        r matches Ok(s) && s@ == text::trimmed(pieces.flatten()),
{
    pieces_make_the_text(raw@, pieces);
}

proof fn pieces_make_the_text(raw: Seq<RawSegment>, pieces: Seq<Seq<char>>)
    requires
        pieces.len() == raw.len(),
        forall|i: int|
            0 <= i < raw.len() ==> {
                ||| (#[trigger] raw[i]).no_speech && pieces[i].len() == 0
                ||| !raw[i].no_speech && raw[i].text is Ok && pieces[i] == raw[i].text->Ok_0@
            },
    ensures
        spoken_text(raw) == Ok::<Seq<char>, Seq<char>>(pieces.flatten()),
    decreases raw.len(),
{
    if raw.len() > 0 {
        let before = pieces.drop_last();
        assert forall|i: int| 0 <= i < raw.len() - 1 implies {
            ||| (#[trigger] raw.drop_last()[i]).no_speech && before[i].len() == 0
            ||| !raw.drop_last()[i].no_speech && raw.drop_last()[i].text is Ok && before[i]
                == raw.drop_last()[i].text->Ok_0@
        } by {
            assert(raw[i] == raw.drop_last()[i]);
        }
        pieces_make_the_text(raw.drop_last(), before);
        assert(raw[raw.len() - 1] == raw.last());
        assert(before.push(pieces.last()) =~= pieces);
        before.lemma_flatten_push(pieces.last());
        assert(before.flatten() + pieces.last() =~= pieces.flatten());
        if raw.last().no_speech {
            assert(before.flatten() =~= pieces.flatten());
        }
    } else {
        assert(pieces.flatten() =~= Seq::<char>::empty());
    }
}

/// The first spoken segment whose text is missing fails a transcription, whatever follows; silence
/// fails none.
pub proof fn the_first_missing_text_fails_a_transcription(
    raw: Vec<RawSegment>,
    i: int,
    r: Result<String, AppError>,
)
    requires
        call_ensures(collect_text, (&raw,), r),
        0 <= i < raw@.len(),
        !raw@[i].no_speech && raw@[i].text is Err,
        forall|j: int| 0 <= j < i ==> (#[trigger] raw@[j]).no_speech || raw@[j].text is Ok,
    ensures
        r matches Err(e) && e is Speech && e.detail() == "segment text failed: "@
            + raw@[i].text->Err_0@,
{
    let upto = raw@.take(i + 1);
    assert(upto.drop_last() =~= raw@.take(i));
    assert forall|j: int| 0 <= j < i implies (#[trigger] raw@.take(i)[j]).no_speech || raw@.take(
        i,
    )[j].text is Ok by {
        assert(raw@[j] == raw@.take(i)[j]);
    }
    readable_segments_have_a_text(raw@.take(i));
    assert(upto.last() == raw@[i]);
    first_error_decides(raw@, i + 1);
}

proof fn readable_segments_have_a_text(raw: Seq<RawSegment>)
    requires
        forall|j: int| 0 <= j < raw.len() ==> (#[trigger] raw[j]).no_speech || raw[j].text is Ok,
    ensures
        spoken_text(raw) is Ok,
    decreases raw.len(),
{
    if raw.len() > 0 {
        assert forall|j: int| 0 <= j < raw.len() - 1 implies (
        #[trigger] raw.drop_last()[j]).no_speech || raw.drop_last()[j].text is Ok by {
            assert(raw[j] == raw.drop_last()[j]);
        }
        readable_segments_have_a_text(raw.drop_last());
        assert(raw[raw.len() - 1] == raw.last());
    }
}

/// The segments of a transcription come in the order in which they were spoken: `f` tells where
/// each of them stands among those of the backend, and leaves out just the silent and the blank
/// ones. A text is trimmed, and a time of so many centiseconds is ten times as many milliseconds.
pub open spec fn in_spoken_order(
    raw: Seq<RawSegment>,
    segments: Seq<Segment>,
    f: Seq<int>,
) -> bool {
    &&& f.len() == segments.len()
    &&& forall|i: int, j: int| 0 <= i < j < f.len() ==> #[trigger] f[i] < #[trigger] f[j]
    &&& forall|i: int|
        0 <= i < f.len() ==> {
            &&& 0 <= #[trigger] f[i] < raw.len()
            &&& !raw[f[i]].no_speech
            &&& raw[f[i]].text is Ok
            &&& segments[i].text@ == text::trimmed(raw[f[i]].text->Ok_0@)
            &&& segments[i].text@.len() > 0
            &&& 0 <= 10 * raw[f[i]].start_cs <= u32::MAX ==> segments[i].start_ms == 10
                * raw[f[i]].start_cs
            &&& 0 <= 10 * raw[f[i]].end_cs <= u32::MAX ==> segments[i].end_ms == 10
                * raw[f[i]].end_cs
            &&& raw[f[i]].start_cs < 0 ==> segments[i].start_ms == 0
            &&& raw[f[i]].end_cs < 0 ==> segments[i].end_ms == 0
        }
    &&& forall|k: int|
        0 <= k < raw.len() && !(#[trigger] raw[k]).no_speech && raw[k].text is Ok && text::trimmed(
            raw[k].text->Ok_0@,
        ).len() > 0 ==> f.contains(k)
}

/// Segments come in the order in which they were spoken, and none that holds a text is lost.
pub proof fn segments_come_in_the_order_spoken(
    raw: Vec<RawSegment>,
    r: Result<Vec<Segment>, AppError>,
)
    requires
        call_ensures(collect_segments, (Ok(()), false, &raw), r),
        forall|i: int| 0 <= i < raw@.len() ==> (#[trigger] raw@[i]).no_speech || raw@[i].text is Ok,
    ensures
        r is Ok,
        exists|f: Seq<int>| #[trigger] in_spoken_order(raw@, r->Ok_0@, f),
{
    let f = positions_of_segments(raw@, r->Ok_0@);
    assert(in_spoken_order(raw@, r->Ok_0@, f));
}

proof fn positions_of_segments(raw: Seq<RawSegment>, segments: Seq<Segment>) -> (f: Seq<int>)
    requires
        collected(raw, segments),
    ensures
        in_spoken_order(raw, segments, f),
    decreases raw.len(),
{
    if raw.len() == 0 {
        seq![]
    } else {
        let n = raw.len() - 1;
        let before = raw.drop_last();
        let fewer = if kept(raw.last()) {
            segments.drop_last()
        } else {
            segments
        };
        let g = positions_of_segments(before, fewer);
        let f = if kept(raw.last()) {
            g.push(n)
        } else {
            g
        };
        assert forall|i: int| 0 <= i < f.len() implies {
            &&& 0 <= #[trigger] f[i] < raw.len()
            &&& !raw[f[i]].no_speech
            &&& raw[f[i]].text is Ok
            &&& segments[i].text@ == text::trimmed(raw[f[i]].text->Ok_0@)
            &&& segments[i].text@.len() > 0
            &&& 0 <= 10 * raw[f[i]].start_cs <= u32::MAX ==> segments[i].start_ms == 10
                * raw[f[i]].start_cs
            &&& 0 <= 10 * raw[f[i]].end_cs <= u32::MAX ==> segments[i].end_ms == 10
                * raw[f[i]].end_cs
            &&& raw[f[i]].start_cs < 0 ==> segments[i].start_ms == 0
            &&& raw[f[i]].end_cs < 0 ==> segments[i].end_ms == 0
        } by {
            if i < g.len() {
                assert(f[i] == g[i]);
                assert(raw[g[i]] == before[g[i]]);
                assert(fewer[i] == segments[i]);
            } else {
                assert(segments[i] == segments.last());
            }
        }
        assert forall|k: int|
            0 <= k < raw.len() && !(#[trigger] raw[k]).no_speech && raw[k].text is Ok
                && text::trimmed(raw[k].text->Ok_0@).len() > 0 implies f.contains(k) by {
            if k < n {
                assert(before[k] == raw[k]);
                assert(g.contains(k));
                let w = choose|w: int| 0 <= w < g.len() && g[w] == k;
                assert(f[w] == k);
            } else {
                assert(f[f.len() - 1] == k);
            }
        }
        assert forall|i: int, j: int| 0 <= i < j < f.len() implies #[trigger] f[i]
            < #[trigger] f[j] by {
            assert(f[i] == g[i]);
            if j < g.len() {
                assert(f[j] == g[j]);
            }
        }
        f
    }
}

/// Segments are no result where the transcription failed, was cancelled or left a text out.
pub proof fn a_spoiled_transcription_has_no_segments(
    run: Result<(), String>,
    cancelled: bool,
    raw: Vec<RawSegment>,
    r: Result<Vec<Segment>, AppError>,
)
    requires
        call_ensures(collect_segments, (run, cancelled, &raw), r),
    ensures
        run matches Err(m) ==> (r matches Err(e) && e is Speech && e.detail()
            == "transcription failed: "@ + m@),
        run is Ok && cancelled ==> (r matches Err(e) && e is Speech && e.detail()
            == "transcription cancelled"@),
        run is Ok && !cancelled ==> (r is Err <==> exists|i: int|
            0 <= i < raw@.len() && !(#[trigger] raw@[i]).no_speech && raw@[i].text is Err),
{
    if run is Ok && !cancelled && r is Ok {
        assert(forall|i: int| 0 <= i < raw@.len() ==> !unreadable(#[trigger] raw@[i]));
    }
    if run is Ok && !cancelled && r is Err {
        let i = choose|i: int| 0 <= i < raw@.len() && unreadable(#[trigger] raw@[i]);
        assert(!raw@[i].no_speech && raw@[i].text is Err);
    }
}

/// The prompt ends with the last fifty characters of the text confirmed so far, or all of it where
/// it is shorter, and begins with a sentence in the language unless that is English.
pub proof fn the_prompt_is_anchor_and_context(
    lang: Language,
    context: Option<&str>,
    anchor: Option<&'static str>,
    p: Option<String>,
)
    requires
        call_ensures(initial_prompt_for_lang, (lang,), anchor),
        call_ensures(context_prompt, (lang, context), p),
    ensures
        anchor is None <==> lang == Language::En,
        lang == Language::Zh ==> anchor->0@ == "以下是普通话的句子。"@,
        lang == Language::Ja ==> anchor->0@ == "以下は日本語の文章です。"@,
        lang == Language::Ko ==> anchor->0@ == "다음은 한국어 문장입니다."@,
        (match p {
            Some(s) => s@,
            None => seq![],
        }) == (match anchor {
            Some(a) => a@,
            None => seq![],
        }) + (match context {
            Some(c) => if c@.len() <= 50 {
                c@
            } else {
                c@.subrange(c@.len() - 50, c@.len() as int)
            },
            None => seq![],
        }),
        p matches Some(s) ==> s@.len() > 0,
{
    if let Some(c) = context {
        if c@.len() > 50 {
            assert(c@.skip(c@.len() - 50) =~= c@.subrange(c@.len() - 50, c@.len() as int));
        }
    }
    assert(prompt_for(
        lang,
        match context {
            Some(c) => Some(c@),
            None => None,
        },
    ) =~= (match anchor {
        Some(a) => a@,
        None => seq![],
    }) + (match context {
        Some(c) => if c@.len() <= 50 {
            c@
        } else {
            c@.subrange(c@.len() - 50, c@.len() as int)
        },
        None => seq![],
    }));
}

/// Progress is told in percent: a report below nothing is nothing, one above all is all.
pub proof fn progress_stays_in_percent(p: i32, q: i32, r: u8, s: u8)
    requires
        call_ensures(progress_percent, (p,), r),
        call_ensures(progress_percent, (q,), s),
        p <= q,
    ensures
        r <= s <= 100,
        0 <= p <= 100 ==> r == p,
        p < 0 ==> r == 0,
        p > 100 ==> r == 100,
{
}

/// A model runs on the GPU where that works, else on the CPU, and not at all where there is no
/// file.
pub proof fn the_gpu_comes_first(
    model_exists: bool,
    path: &str,
    gpu: Result<(), String>,
    cpu: Result<(), String>,
    r: Result<LoadedOn, AppError>,
)
    requires
        call_ensures(load_outcome, (model_exists, path, gpu, cpu), r),
    ensures
        r is Ok <==> model_exists && (gpu is Ok || cpu is Ok),
        r matches Ok(on) ==> (on == LoadedOn::Gpu) == (gpu is Ok),
        !model_exists ==> r->Err_0.detail() == "model file not found: "@ + path@,
        model_exists && r is Err ==> r->Err_0.detail() == "failed to load model (GPU and CPU): "@
            + cpu->Err_0@,
{
}

/// A cancelled transcription is told as such whatever the backend made of it.
pub proof fn a_cancelled_transcription_is_told_as_such(
    cancelled: bool,
    result: Result<String, AppError>,
    r: Result<String, AppError>,
)
    requires
        call_ensures(cancelable_outcome, (cancelled, result), r),
    ensures
        !cancelled ==> r == result,
        cancelled ==> (r matches Err(e) && e is Speech && e.detail()
            == "transcription cancelled"@),
{
}

/// A state that was put back is the one that is taken out next; the pool keeps two.
pub proof fn states_are_reused<S>(
    pool: &mut StatePool<S>,
    state: S,
    spare: Option<S>,
    after: &mut StatePool<S>,
    taken: Option<S>,
)
    requires
        call_ensures(StatePool::<S>::push_state, (pool, state), spare),
        *old(after) == *final(pool),
        call_ensures(StatePool::<S>::pop_state, (after,), taken),
    ensures
        old(pool).held().len() < 2 ==> spare is None && taken == Some(state)
            && final(after).held() == old(pool).held(),
        old(pool).held().len() >= 2 ==> spare == Some(state) && final(pool).held()
            == old(pool).held(),
{
    assert(old(pool).held().push(state).drop_last() =~= old(pool).held());
}

/// The badge of an engine names what its model runs on.
pub proof fn the_badge_names_what_the_model_runs_on(loaded: Option<LoadedOn>, s: &'static str)
    requires
        call_ensures(compute_mode, (loaded,), s),
    ensures
        loaded is None ==> s@ == "unloaded"@,
        loaded == Some(LoadedOn::Gpu) ==> s@ == "gpu"@,
        loaded == Some(LoadedOn::Cpu) ==> s@ == "cpu"@,
{
}

/// The end of a text is as long as asked for, or the whole where that is shorter.
pub proof fn the_last_characters_are_taken(text: &str, n: usize, s: String, j: int)
    requires
        call_ensures(last_n_chars, (text, n), s),
    ensures
        s@.len() == (if n < text@.len() {
            n as nat
        } else {
            text@.len()
        }),
        0 <= j < s@.len() ==> s@[s@.len() - 1 - j] == text@[text@.len() - 1 - j],
{
}

} // verus!
