//! Timing of a dictation cycle and a bounded history of such timings.

use crate::numeric;
use crate::text;
use std::collections::VecDeque;
use vstd::prelude::*;

verus! {

/// Performance metrics for a single cycle (hotkey press to injection complete). A phase that was
/// skipped or not reached has no duration.
#[derive(Debug, Clone, Copy, PartialEq, Eq)]
pub struct PerfMetrics {
    /// Monotonically increasing cycle ID.
    pub cycle_id: u64,
    /// Time from hotkey press to audio capture started.
    pub press_latency_ms: Option<u64>,
    /// How long the user held the hotkey.
    pub audio_duration_ms: Option<u64>,
    /// Synchronous work on release.
    pub release_latency_ms: Option<u64>,
    /// Transcription time.
    pub transcription_ms: Option<u64>,
    /// Language-model round-trip.
    pub llm_correction_ms: Option<u64>,
    /// Clipboard injection time.
    pub injection_ms: Option<u64>,
    /// Total time from press to injection complete.
    pub end_to_end_ms: Option<u64>,
    /// Raw audio sample count before resampling.
    pub audio_samples: usize,
    /// Capture sample rate.
    pub audio_sample_rate: u32,
    /// Number of characters of the final text.
    pub text_length: usize,
    /// Whether correction was enabled for this cycle.
    pub llm_enabled: bool,
}

/// The metrics of a cycle that has just begun.
pub open spec fn fresh_metrics(cycle_id: u64) -> PerfMetrics {
    PerfMetrics {
        cycle_id,
        press_latency_ms: None,
        audio_duration_ms: None,
        release_latency_ms: None,
        transcription_ms: None,
        llm_correction_ms: None,
        injection_ms: None,
        end_to_end_ms: None,
        audio_samples: 0,
        audio_sample_rate: 0,
        text_length: 0,
        llm_enabled: false,
    }
}

/// A duration of at least a second in hundredths of a second, as double-precision arithmetic
/// gives it: the number and its quotient by 1000 are rounded to 53 binary digits before the
/// quotient is rounded to hundredths.
pub open spec fn hundredths(ms: nat) -> nat {
    let v = numeric::rounded(ms, 0x20_0000_0000_0000);
    let unit = numeric::binary_unit(v, 1000);
    let quotient = numeric::nearest_even(v * 0x10_0000_0000_0000, unit);
    numeric::nearest_even(100 * (quotient * (unit / 1000)), 0x10_0000_0000_0000)
}

/// A duration as a summary shows it: seconds with two decimals from a second on, milliseconds
/// below, a dash where there is none.
pub open spec fn shown_duration(v: Option<u64>) -> Seq<char> {
    match v {
        None => "-"@,
        Some(ms) => if ms >= 1000 {
            let h = hundredths(ms as nat);
            text::decimal(h / 100) + "."@ + seq![text::digit(h % 100 / 10), text::digit(h % 10)]
                + "s"@
        } else {
            text::decimal(ms as nat) + "ms"@
        },
    }
}

fn to_hundredths(ms: u64) -> (h: u128)
    requires
        ms >= 1000,
    ensures
        h == hundredths(ms as nat),
        h <= 0x1_0000_0000_0000_0000,
{
    let v: u128 = numeric::round_to_bits(ms, 0x20_0000_0000_0000);
    let unit: u128 = numeric::find_unit(v, 1000);
    let q: u128 = numeric::round_even(v * 0x10_0000_0000_0000, unit);
    let w: u128 = unit / 1000;
    proof {
        let n = (v * 0x10_0000_0000_0000) as int;
        let u = unit as int;
        assert(n < u * 0x20_0000_0000_0000);
        assert(n / u <= 0x20_0000_0000_0000) by (nonlinear_arith)
            requires
                n < u * 0x20_0000_0000_0000,
                u > 0,
        ;
        assert(q <= 0x20_0000_0000_0001);
        assert(w <= 0x100_0000_0000_0000);
        assert(q * w <= 0x20_0000_0000_0001 * 0x100_0000_0000_0000) by (nonlinear_arith)
            requires
                q <= 0x20_0000_0000_0001,
                w <= 0x100_0000_0000_0000,
        ;
    }
    numeric::round_even(100 * (q * w), 0x10_0000_0000_0000)
}

fn duration_text(v: Option<u64>) -> (s: String)
    ensures
        s@ == shown_duration(v),
{
    match v {
        None => "-".to_owned(),
        Some(ms) => {
            if ms >= 1000 {
                let h: u128 = to_hundredths(ms);
                let mut s = text::decimal_text((h / 100) as u64).concat(".");
                s.push(text::digit_char((h % 100 / 10) as u64));
                s.push(text::digit_char((h % 10) as u64));
                let s = s.concat("s");
                assert(s@ =~= shown_duration(v));
                s
            } else {
                text::decimal_text(ms).concat("ms")
            }
        },
    }
}

/// The line that sums a cycle up.
pub open spec fn summary_line(m: PerfMetrics) -> Seq<char> {
    "[perf #"@ + text::decimal(m.cycle_id as nat) + "] e2e="@ + shown_duration(m.end_to_end_ms)
        + " | capture="@ + shown_duration(m.audio_duration_ms) + " | release="@ + shown_duration(
        m.release_latency_ms,
    ) + " | whisper="@ + shown_duration(m.transcription_ms) + " | llm="@ + shown_duration(
        m.llm_correction_ms,
    ) + " | inject="@ + shown_duration(m.injection_ms) + " | "@ + text::decimal(
        m.text_length as nat,
    ) + "ch"@
}

impl PerfMetrics {
    pub fn new(cycle_id: u64) -> (m: Self)
        ensures
            m == fresh_metrics(cycle_id),
    {
        PerfMetrics {
            cycle_id,
            press_latency_ms: None,
            audio_duration_ms: None,
            release_latency_ms: None,
            transcription_ms: None,
            llm_correction_ms: None,
            injection_ms: None,
            end_to_end_ms: None,
            audio_samples: 0,
            audio_sample_rate: 0,
            text_length: 0,
            llm_enabled: false,
        }
    }

    /// Format a single-line summary.
    pub fn summary(&self) -> (s: String)
        ensures
            s@ == summary_line(*self),
    {
        "[perf #".to_owned().concat(text::decimal_text(self.cycle_id).as_str()).concat(
            "] e2e=",
        ).concat(duration_text(self.end_to_end_ms).as_str()).concat(" | capture=").concat(
            duration_text(self.audio_duration_ms).as_str(),
        ).concat(" | release=").concat(duration_text(self.release_latency_ms).as_str()).concat(
            " | whisper=",
        ).concat(duration_text(self.transcription_ms).as_str()).concat(" | llm=").concat(
            duration_text(self.llm_correction_ms).as_str(),
        ).concat(" | inject=").concat(duration_text(self.injection_ms).as_str()).concat(
            " | ",
        ).concat(text::decimal_text(self.text_length as u64).as_str()).concat("ch")
    }
}

/// The last `n` of a sequence, or all of it where it is shorter.
pub open spec fn last_of<T>(s: Seq<T>, n: nat) -> Seq<T> {
    if s.len() <= n {
        s
    } else {
        s.skip(s.len() - n)
    }
}

/// Bounded history of the latest cycles.
pub struct PerfHistory {
    counter: u64,
    buffer: VecDeque<PerfMetrics>,
}

impl PerfHistory {
    pub const CAPACITY: usize = 64;

    /// The ID that the next cycle gets.
    pub closed spec fn next_id(self) -> u64 {
        self.counter
    }

    /// The recorded cycles, oldest first.
    pub closed spec fn entries(self) -> Seq<PerfMetrics> {
        self.buffer@
    }

    /// The history keeps within its capacity.
    pub open spec fn wf(self) -> bool {
        self.entries().len() <= Self::CAPACITY
    }

    pub fn new() -> (h: Self)
        ensures
            h.wf(),
            h.next_id() == 1,
            h.entries() == Seq::<PerfMetrics>::empty(),
    {
        PerfHistory { counter: 1, buffer: VecDeque::new() }
    }

    /// Allocate the next cycle ID. The counter starts over after the largest number.
    pub fn next_cycle_id(&mut self) -> (id: u64)
        ensures
            id == old(self).next_id(),
            final(self).next_id() == (if id == u64::MAX {
                0
            } else {
                id + 1
            }),
            final(self).entries() == old(self).entries(),
    {
        let id: u64 = self.counter;
        self.counter = id.wrapping_add(1);
        id
    }

    /// Record a completed cycle's metrics; the oldest ones give way.
    pub fn record(&mut self, metrics: PerfMetrics)
        requires
            old(self).wf(),
        ensures
            final(self).wf(),
            final(self).next_id() == old(self).next_id(),
            final(self).entries() == last_of(
                old(self).entries().push(metrics),
                Self::CAPACITY as nat,
            ),
    {
        if self.buffer.len() >= Self::CAPACITY {
            self.buffer.pop_front();
        }
        self.buffer.push_back(metrics);
        assert(self.entries() =~= last_of(
            old(self).entries().push(metrics),
            Self::CAPACITY as nat,
        ));
    }

    /// Return the last `n` recorded metrics (most recent last).
    pub fn recent(&self, n: usize) -> (v: Vec<PerfMetrics>)
        ensures
            v@ == last_of(self.entries(), n as nat),
    {
        let len: usize = self.buffer.len();
        let from: usize = if len <= n {
            0
        } else {
            len - n
        };
        let mut v: Vec<PerfMetrics> = Vec::new();
        let mut i: usize = from;
        while i < len
            invariant
                from <= i <= len,
                len == self.buffer@.len(),
                v@ == self.buffer@.subrange(from as int, i as int),
            decreases len - i,
        {
            v.push(self.buffer[i]);
            i = i + 1;
        }
        assert(v@ =~= last_of(self.entries(), n as nat));
        v
    }
}

impl Default for PerfHistory {
    fn default() -> (h: Self)
        ensures
            h.wf(),
            h.next_id() == 1,
            h.entries() == Seq::<PerfMetrics>::empty(),
    {
        Self::new()
    }
}

/// The entries after a series of recordings.
pub open spec fn entries_after(entries: Seq<PerfMetrics>, recorded: Seq<PerfMetrics>) -> Seq<
    PerfMetrics,
>
    decreases recorded.len(),
{
    if recorded.len() == 0 {
        entries
    } else {
        last_of(
            entries_after(entries, recorded.drop_last()).push(recorded.last()),
            PerfHistory::CAPACITY as nat,
        )
    }
}

/// A history that starts empty holds the latest cycles up to its capacity, in the order in which
/// they were recorded.
pub proof fn history_keeps_the_latest(recorded: Seq<PerfMetrics>)
    ensures
        entries_after(Seq::empty(), recorded) == last_of(recorded, PerfHistory::CAPACITY as nat),
    decreases recorded.len(),
{
    if recorded.len() > 0 {
        history_keeps_the_latest(recorded.drop_last());
        assert(recorded =~= recorded.drop_last().push(recorded.last()));
        assert(last_of(
            last_of(recorded.drop_last(), PerfHistory::CAPACITY as nat).push(recorded.last()),
            PerfHistory::CAPACITY as nat,
        ) =~= last_of(recorded, PerfHistory::CAPACITY as nat));
    } else {
        assert(recorded =~= Seq::empty());
    }
}

/// The latest cycles are the ones recorded last, in their order, and no more than 64 are kept.
pub proof fn the_latest_cycles_are_kept(
    history: &mut PerfHistory,
    m: PerfMetrics,
    done: (),
    n: usize,
    v: Vec<PerfMetrics>,
    j: int,
)
    requires
        old(history).wf(),
        call_ensures(PerfHistory::record, (history, m), done),
        call_ensures(PerfHistory::recent, (&*final(history), n), v),
    ensures
        final(history).next_id() == old(history).next_id(),
        ({
            let all = old(history).entries().push(m);
            let kept = if all.len() < 64 {
                all.len()
            } else {
                64
            };
            &&& final(history).entries().len() == kept
            &&& v@.len() == (if n < kept {
                n as int
            } else {
                kept as int
            })
            &&& 0 <= j < v@.len() ==> v@[v@.len() - 1 - j] == all[all.len() - 1 - j]
        }),
{
}

/// Cycles are numbered from 1 on, one after the other.
pub proof fn cycles_are_numbered(
    fresh: PerfHistory,
    history: &mut PerfHistory,
    id: u64,
    m: PerfMetrics,
)
    requires
        call_ensures(PerfHistory::new, (), fresh),
        call_ensures(PerfHistory::next_cycle_id, (history,), id),
        call_ensures(PerfMetrics::new, (id,), m),
    ensures
        fresh.next_id() == 1 && fresh.entries().len() == 0,
        id == old(history).next_id(),
        id < u64::MAX ==> final(history).next_id() == id + 1,
        id == u64::MAX ==> final(history).next_id() == 0,
        final(history).entries() == old(history).entries(),
        m.cycle_id == id,
        m.press_latency_ms is None && m.audio_duration_ms is None && m.release_latency_ms is None,
        m.transcription_ms is None && m.llm_correction_ms is None && m.injection_ms is None,
        m.end_to_end_ms is None && m.text_length == 0,
{
}

/// The end of a sequence is as long as asked for, or the whole where that is shorter.
pub proof fn the_end_of_a_sequence<T>(s: Seq<T>, n: nat, j: int)
    ensures
        last_of(s, n).len() == (if n < s.len() {
            n
        } else {
            s.len()
        }),
        0 <= j < last_of(s, n).len() ==> last_of(s, n)[last_of(s, n).len() - 1 - j] == s[s.len() - 1
            - j],
{
}

/// A duration is shown in milliseconds below a second and in seconds with two decimals from there
/// on, rounded to the nearest hundredth; a missing one is a dash.
pub proof fn durations_are_shown_to_the_nearest_hundredth(v: Option<u64>)
    requires
        v is Some ==> v->0 < 0x10_0000_0000_0000,
    ensures
        v is None ==> shown_duration(v) == "-"@,
        v is Some && v->0 < 1000 ==> shown_duration(v) == text::decimal(v->0 as nat) + "ms"@,
        v is Some && v->0 >= 1000 ==> exists|h: nat|
            -5 <= v->0 - 10 * h <= 5 && shown_duration(v) == #[trigger] text::decimal(h / 100)
                + "."@ + seq![text::digit(h % 100 / 10), text::digit(h % 10)] + "s"@,
{
    if v is Some && v->0 >= 1000 {
        let h = hundredths(v->0 as nat);
        hundredths_are_near(v->0 as nat);
        assert(shown_duration(v) == text::decimal(h / 100) + "."@ + seq![
            text::digit(h % 100 / 10),
            text::digit(h % 10),
        ] + "s"@);
    }
}

proof fn unit_is_reached(v: nat, unit: nat) -> (w: nat)
    requires
        0 < unit <= v,
    ensures
        numeric::binary_unit(v, unit) == unit * w,
        w >= 1,
        unit * w <= v,
    decreases v - unit,
{
    if v < 2 * unit {
        assert(unit * 1 == unit);
        1
    } else {
        let w = unit_is_reached(v, 2 * unit);
        assert((2 * unit) * w == unit * (2 * w)) by (nonlinear_arith);
        2 * w
    }
}

proof fn hundredths_are_near(ms: nat)
    requires
        1000 <= ms < 0x10_0000_0000_0000,
    ensures
        -5 <= ms - 10 * hundredths(ms) <= 5,
{
    let b: int = 0x10_0000_0000_0000;
    let w = unit_is_reached(ms, 1000) as int;
    let unit = 1000 * w;
    assert(numeric::binary_unit(ms, 1000) == unit);
    assert(unit / 1000 == w);
    let q = numeric::nearest_even((ms * 0x10_0000_0000_0000) as nat, unit as nat) as int;
    let h = hundredths(ms) as int;
    numeric::nearest_is_near((ms * 0x10_0000_0000_0000) as nat, unit as nat);
    numeric::nearest_is_near((100 * (q * w)) as nat, 0x10_0000_0000_0000);
    let n = ms * b;
    let p = q * w;
    assert(2 * n - unit <= 2 * (unit * q) <= 2 * n + unit);
    assert(unit * q == 1000 * p) by (nonlinear_arith)
        requires
            unit == 1000 * w,
            p == q * w,
    ;
    assert(2 * (100 * p) - b <= 2 * (b * h) <= 2 * (100 * p) + b);
    let d = ms - 10 * h;
    assert(b * d == n - b * (10 * h)) by (nonlinear_arith)
        requires
            d == ms - 10 * h,
            n == ms * b,
    ;
    assert(b * (10 * h) == 10 * (b * h)) by (nonlinear_arith);
    assert(20 * (b * h) <= 2000 * p + 10 * b);
    assert(20 * (b * h) >= 2000 * p - 10 * b);
    assert(2000 * p <= 2 * n + unit);
    assert(2000 * p >= 2 * n - unit);
    assert(2 * (b * d) <= unit + 10 * b);
    assert(2 * (b * d) >= -unit - 10 * b);
    assert(unit < b);
    assert(-6 < d < 6) by (nonlinear_arith)
        requires
            2 * (b * d) <= unit + 10 * b,
            2 * (b * d) >= -unit - 10 * b,
            0 <= unit < b,
    ;
}

/// The line that sums a cycle up names the cycle, each phase with its duration, and the length of
/// the text.
pub proof fn a_summary_names_each_phase(m: PerfMetrics, s: String)
    requires
        call_ensures(PerfMetrics::summary, (&m,), s),
    ensures
        s@ == "[perf #"@ + text::decimal(m.cycle_id as nat) + "] e2e="@ + shown_duration(
            m.end_to_end_ms,
        ) + " | capture="@ + shown_duration(m.audio_duration_ms) + " | release="@ + shown_duration(
            m.release_latency_ms,
        ) + " | whisper="@ + shown_duration(m.transcription_ms) + " | llm="@ + shown_duration(
            m.llm_correction_ms,
        ) + " | inject="@ + shown_duration(m.injection_ms) + " | "@ + text::decimal(
            m.text_length as nat,
        ) + "ch"@,
{
}

} // verus!
