//! Realtime transcription with a sliding window.
//!
//! While the hotkey is held, the last seconds of audio are transcribed again and again. The windows
//! overlap, so each new partial text is matched against the one before it, and only what is new is
//! appended to the running text.

use crate::numeric;
use crate::perf;
use crate::text;
use vstd::prelude::*;

verus! {

/// Interval between transcription attempts (milliseconds).
pub const STEP_MS: u64 = 500;

/// Shorter pause while there is no audio yet (milliseconds).
pub const SHORT_STEP_MS: u64 = 100;

/// Interval for polling the stop flag (milliseconds).
pub const STOP_POLL_MS: u64 = 50;

/// Audio window size for each transcription (seconds).
pub const WINDOW_SECS: u32 = 5;

/// Source of the recent samples of a recording, `None` while there is no recording.
pub struct StateMachineAudioSource<T> {
    buffer: Option<Vec<T>>,
}

impl<T: Copy> StateMachineAudioSource<T> {
    /// The samples recorded so far.
    pub closed spec fn recorded(self) -> Option<Seq<T>> {
        match self.buffer {
            Some(b) => Some(b@),
            None => None,
        }
    }

    pub fn new(buffer: Option<Vec<T>>) -> (s: Self)
        ensures
            match buffer {
                Some(b) => s.recorded() == Some(b@),
                None => s.recorded() is None,
            },
    {
        StateMachineAudioSource { buffer }
    }

    /// Returns the most recent `max_samples` samples, or `None` while there is no recording.
    pub fn get_recent_samples(&self, max_samples: usize) -> (r: Option<Vec<T>>)
        ensures
            match self.recorded() {
                Some(b) => r matches Some(v) && v@ == perf::last_of(b, max_samples as nat),
                None => r is None,
            },
    {
        match &self.buffer {
            None => None,
            Some(b) => {
                let from: usize = if b.len() <= max_samples {
                    0
                } else {
                    b.len() - max_samples
                };
                let mut v: Vec<T> = Vec::new();
                let mut i: usize = from;
                while i < b.len()
                    invariant
                        from <= i <= b@.len(),
                        v@ == b@.subrange(from as int, i as int),
                    decreases b@.len() - i,
                {
                    v.push(b[i]);
                    i = i + 1;
                }
                assert(v@ =~= perf::last_of(b@, max_samples as nat));
                Some(v)
            },
        }
    }
}

/// Punctuation and white space, which vary between windows and do not count when texts are
/// matched.
pub open spec fn ignorable(c: char) -> bool {
    ||| c == ',' || c == '.' || c == '!' || c == '?' || c == ';' || c == ':' || c == '-'
    ||| c == '—' || c == '…' || c == '\u{201C}' || c == '\u{201D}' || c == '\''
    ||| c == '，' || c == '。' || c == '！' || c == '？' || c == '；' || c == '：' || c == '、'
    ||| text::white_space(c)
}

/// Whether a character is punctuation or white space that is ignored during comparison.
pub fn is_punct(c: char) -> (r: bool)
    ensures
        r == ignorable(c),
{
    c == ',' || c == '.' || c == '!' || c == '?' || c == ';' || c == ':' || c == '-' || c == '—'
        || c == '…' || c == '\u{201C}' || c == '\u{201D}' || c == '\'' || c == '，' || c == '。'
        || c == '！' || c == '？' || c == '；' || c == '：' || c == '、' || text::is_white_space(c)
}

/// The characters of a text that count when texts are matched.
pub open spec fn content(s: Seq<char>) -> Seq<char>
    decreases s.len(),
{
    if s.len() == 0 {
        seq![]
    } else if ignorable(s.last()) {
        content(s.drop_last())
    } else {
        content(s.drop_last()).push(s.last())
    }
}

fn content_of(v: &Vec<char>) -> (r: Vec<char>)
    ensures
        r@ == content(v@),
{
    let mut r: Vec<char> = Vec::new();
    let mut i: usize = 0;
    while i < v.len()
        invariant
            i <= v@.len(),
            r@ == content(v@.take(i as int)),
        decreases v@.len() - i,
    {
        assert(v@.take(i + 1).drop_last() =~= v@.take(i as int));
        if !is_punct(v[i]) {
            r.push(v[i]);
        }
        i = i + 1;
    }
    assert(v@.take(i as int) =~= v@);
    r
}

/// `k` characters of `s` reach just behind its `n`-th content character, or to the end of `s`
/// where there is none, as it has fewer or `n` is 0.
pub open spec fn reaches(s: Seq<char>, n: nat, k: int) -> bool {
    if n == 0 || content(s).len() < n {
        k == s.len()
    } else {
        0 < k <= s.len() && !ignorable(s[k - 1]) && content(s.take(k)).len() == n
    }
}

proof fn content_grows(s: Seq<char>, k: int)
    requires
        0 <= k <= s.len(),
    ensures
        content(s.take(k)).len() <= content(s).len(),
        content(s.take(k)) == content(s).take(content(s.take(k)).len() as int),
    decreases s.len(),
{
    if k == s.len() {
        assert(s.take(k) =~= s);
        assert(content(s).take(content(s).len() as int) =~= content(s));
    } else {
        content_grows(s.drop_last(), k);
        assert(s.drop_last().take(k) =~= s.take(k));
        let m = content(s.take(k)).len() as int;
        assert(content(s).take(m) =~= content(s.drop_last()).take(m));
    }
}

/// The number of characters of `s` up to and with its `n`-th content character, or all of them
/// where there is none.
fn content_prefix(s: &str, n: usize) -> (k: usize)
    ensures
        reaches(s@, n as nat, k as int),
        k <= s@.len(),
{
    let v = text::chars_of(s);
    let mut count: usize = 0;
    let mut i: usize = 0;
    while i < v.len()
        invariant
            i <= v@.len(),
            v@ == s@,
            count == content(v@.take(i as int)).len(),
            count <= i,
            n > 0 ==> count < n,
        decreases v@.len() - i,
    {
        assert(v@.take(i + 1).drop_last() =~= v@.take(i as int));
        if !is_punct(v[i]) {
            count = count + 1;
            if count == n {
                proof {
                    content_grows(v@, i + 1);
                }
                return i + 1;
            }
        }
        i = i + 1;
    }
    assert(v@.take(i as int) =~= v@);
    v.len()
}

/// The byte offset in `s` just behind its `n`-th content character, or the length of `s` where
/// there is none. Punctuation behind that character is left for what follows.
pub fn content_char_offset(s: &str, n: usize) -> (r: usize)
    ensures
        exists|k: int|
            #[trigger] reaches(s@, n as nat, k) && 0 <= k <= s@.len() && r == text::byte_len(
                s@.take(k),
            ),
        n > 0 && s@.len() > 0 ==> r > 0,
{
    let k: usize = content_prefix(s, n);
    assert(reaches(s@, n as nat, k as int));
    text::bytes_before(s, k)
}

/// The least number of content characters that have to match: half of those of the previous text,
/// computed in single precision, and at least one.
pub open spec fn least_overlap(prev_len: nat) -> nat {
    let half = numeric::rounded(prev_len, 0x100_0000) / 2;
    if half == 0 {
        1
    } else {
        half
    }
}

/// The last `n` content characters of the previous text are the first `n` of the new one.
pub open spec fn continues(prev: Seq<char>, new: Seq<char>, n: nat) -> bool {
    &&& n <= prev.len()
    &&& n <= new.len()
    &&& prev.skip(prev.len() - n) == new.take(n as int)
}

/// The longest match of `n` or fewer content characters, no shorter than `least`; 0 where there
/// is none.
pub open spec fn longest_match(prev: Seq<char>, new: Seq<char>, least: nat, n: nat) -> nat
    decreases n,
{
    if n < least || n == 0 {
        0
    } else if continues(prev, new, n) {
        n
    } else {
        longest_match(prev, new, least, (n - 1) as nat)
    }
}

/// How many content characters of the new text repeat the end of the previous one.
pub open spec fn overlap(prev: Seq<char>, new: Seq<char>) -> nat {
    let p = content(prev);
    let n = content(new);
    longest_match(
        p,
        n,
        least_overlap(p.len()),
        if p.len() < n.len() {
            p.len()
        } else {
            n.len()
        },
    )
}

/// The longest match is a match, and no longer one exists.
pub proof fn overlap_is_longest(prev: Seq<char>, new: Seq<char>, m: nat)
    ensures
        overlap(prev, new) > 0 ==> continues(content(prev), content(new), overlap(prev, new))
            && overlap(prev, new) >= least_overlap(content(prev).len()),
        continues(content(prev), content(new), m) && m >= least_overlap(content(prev).len())
            ==> m <= overlap(prev, new),
{
    let p = content(prev);
    let n = content(new);
    let top = if p.len() < n.len() {
        p.len()
    } else {
        n.len()
    };
    longest_match_is_longest(p, n, least_overlap(p.len()), top, m);
}

proof fn longest_match_is_longest(p: Seq<char>, n: Seq<char>, least: nat, top: nat, m: nat)
    requires
        least >= 1,
    ensures
        longest_match(p, n, least, top) > 0 ==> continues(p, n, longest_match(p, n, least, top))
            && longest_match(p, n, least, top) >= least,
        m <= top && continues(p, n, m) && m >= least ==> m <= longest_match(p, n, least, top),
    decreases top,
{
    if top >= least && top > 0 && !continues(p, n, top) {
        longest_match_is_longest(p, n, least, (top - 1) as nat, m);
    }
}

fn matches_end(prev: &Vec<char>, new: &Vec<char>, n: usize) -> (r: bool)
    requires
        n <= prev@.len(),
        n <= new@.len(),
    ensures
        r == continues(prev@, new@, n as nat),
{
    let from: usize = prev.len() - n;
    let mut i: usize = 0;
    while i < n
        invariant
            i <= n <= new@.len(),
            from + n == prev.len(),
            forall|j: int| 0 <= j < i ==> prev@[from + j] == new@[j],
        decreases n - i,
    {
        if prev[from + i] != new[i] {
            assert(prev@.skip(from as int)[i as int] != new@.take(n as int)[i as int]);
            return false;
        }
        i = i + 1;
    }
    assert(prev@.skip(from as int) =~= new@.take(n as int));
    true
}

/// Where the new content of a partial text begins: behind the part that repeats the previous
/// partial text, or 0 where nothing is repeated.
pub open spec fn overlap_end(prev: Seq<char>, new: Seq<char>, k: int) -> bool {
    if overlap(prev, new) == 0 {
        k == 0
    } else {
        reaches(new, overlap(prev, new), k)
    }
}

fn overlap_len(prev_partial: &str, new_partial: &str) -> (r: usize)
    ensures
        r == overlap(prev_partial@, new_partial@),
{
    let prev_chars = text::chars_of(prev_partial);
    let new_chars = text::chars_of(new_partial);
    let prev = content_of(&prev_chars);
    let new = content_of(&new_chars);
    let half: u128 = numeric::round_to_bits(prev.len() as u64, 0x100_0000) / 2;
    let least: u128 = if half == 0 {
        1
    } else {
        half
    };
    let mut n: usize = if prev.len() < new.len() {
        prev.len()
    } else {
        new.len()
    };
    while n > 0 && n as u128 >= least
        invariant
            n <= prev@.len(),
            n <= new@.len(),
            prev@ == content(prev_partial@),
            new@ == content(new_partial@),
            least >= 1,
            least == least_overlap(prev@.len()),
            overlap(prev_partial@, new_partial@) == longest_match(
                prev@,
                new@,
                least as nat,
                n as nat,
            ),
        decreases n,
    {
        if matches_end(&prev, &new, n) {
            return n;
        }
        n = n - 1;
    }
    0
}

/// The byte offset in `new_partial` where new content begins, 0 if it does not continue
/// `prev_partial`. Punctuation and white space are ignored in the comparison.
pub fn find_overlap_end(prev_partial: &str, new_partial: &str) -> (r: usize)
    ensures
        exists|k: int|
            #[trigger] overlap_end(prev_partial@, new_partial@, k) && 0 <= k <= new_partial@.len()
                && r == text::byte_len(new_partial@.take(k)),
        r == 0 <==> overlap(prev_partial@, new_partial@) == 0,
{
    let n: usize = overlap_len(prev_partial, new_partial);
    if n == 0 {
        assert(overlap_end(prev_partial@, new_partial@, 0));
        assert(new_partial@.take(0) =~= Seq::<char>::empty());
        return 0;
    }
    proof {
        overlap_is_longest(prev_partial@, new_partial@, 0);
        content_grows(new_partial@, 0);
        assert(new_partial@.len() > 0);
    }
    let r: usize = content_char_offset(new_partial, n);
    proof {
        let k = choose|k: int|
            #[trigger] reaches(new_partial@, n as nat, k) && 0 <= k <= new_partial@.len() && r
                == text::byte_len(new_partial@.take(k));
        assert(overlap_end(prev_partial@, new_partial@, k));
    }
    r
}

/// `tail` ends `s`.
pub open spec fn ends_with(s: Seq<char>, tail: Seq<char>) -> bool {
    tail.len() <= s.len() && s.skip(s.len() - tail.len()) == tail
}

/// The part of a new text behind the overlap is nothing new: it holds no content, and the previous
/// text ended with it already.
pub open spec fn seen_before(prev: Seq<char>, tail: Seq<char>) -> bool {
    content(tail).len() == 0 && ends_with(prev, tail)
}

/// The running text after the part of a new text behind the overlap.
pub open spec fn extended(accumulated: Seq<char>, prev: Seq<char>, tail: Seq<char>) -> Seq<char> {
    if seen_before(prev, tail) {
        accumulated
    } else {
        accumulated + tail
    }
}

/// The running text after a new partial text: a first text is taken whole, of a text that
/// continues the previous one the part behind the overlap is appended unless it was there before,
/// any other is left out.
pub open spec fn accumulated_text(
    accumulated: Seq<char>,
    prev: Seq<char>,
    new: Seq<char>,
    result: Seq<char>,
) -> bool {
    if accumulated.len() == 0 {
        result == new
    } else if overlap(prev, new) == 0 {
        result == accumulated
    } else {
        exists|k: int|
            #[trigger] reaches(new, overlap(prev, new), k) && 0 <= k <= new.len() && result
                == extended(accumulated, prev, new.skip(k))
    }
}

fn was_seen(prev: &Vec<char>, new: &Vec<char>, k: usize) -> (r: bool)
    requires
        k <= new@.len(),
    ensures
        r == seen_before(prev@, new@.skip(k as int)),
{
    let n: usize = new.len() - k;
    let ghost tail = new@.skip(k as int);
    let mut i: usize = 0;
    while i < n
        invariant
            n == tail.len(),
            k + n == new.len(),
            i <= n,
            tail == new@.skip(k as int),
            content(tail.take(i as int)).len() == 0,
        decreases n - i,
    {
        assert(tail.take(i + 1).drop_last() =~= tail.take(i as int));
        if !is_punct(new[k + i]) {
            proof {
                content_grows(tail, i + 1);
            }
            return false;
        }
        i = i + 1;
    }
    assert(tail.take(n as int) =~= tail);
    if n > prev.len() {
        return false;
    }
    let from: usize = prev.len() - n;
    let mut i: usize = 0;
    while i < n
        invariant
            n == tail.len(),
            k + n == new.len(),
            from + n == prev.len(),
            i <= n,
            tail == new@.skip(k as int),
            forall|j: int| 0 <= j < i ==> prev@[from + j] == tail[j],
        decreases n - i,
    {
        if prev[from + i] != new[k + i] {
            assert(prev@.skip(from as int)[i as int] != tail[i as int]);
            return false;
        }
        i = i + 1;
    }
    assert(prev@.skip(from as int) =~= tail);
    true
}

/// Accumulate a new partial transcription into the running text.
pub fn accumulate(accumulated: &str, prev_partial: &str, new_partial: &str) -> (r: String)
    ensures
        accumulated_text(accumulated@, prev_partial@, new_partial@, r@),
{
    if accumulated.is_empty() {
        return new_partial.to_owned();
    }
    let n: usize = overlap_len(prev_partial, new_partial);
    if n == 0 {
        return accumulated.to_owned();
    }
    let v = text::chars_of(new_partial);
    let k: usize = content_prefix(new_partial, n);
    assert(reaches(new_partial@, overlap(prev_partial@, new_partial@), k as int));
    if was_seen(&text::chars_of(prev_partial), &v, k) {
        return accumulated.to_owned();
    }
    let fresh = text::text_between(&v, k, v.len());
    assert(fresh@ =~= new_partial@.skip(k as int));
    accumulated.to_owned().concat(fresh.as_str())
}

/// The position just behind the `n`-th content character is unique.
pub proof fn reach_is_unique(s: Seq<char>, n: nat, a: int, b: int)
    requires
        reaches(s, n, a),
        reaches(s, n, b),
    ensures
        a == b,
{
    if content(s).len() >= n {
        if a < b {
            reach_is_ordered(s, a, b);
        } else if b < a {
            reach_is_ordered(s, b, a);
        }
    }
}

proof fn reach_is_ordered(s: Seq<char>, a: int, b: int)
    requires
        0 < a < b <= s.len(),
        !ignorable(s[b - 1]),
    ensures
        content(s.take(a)).len() < content(s.take(b)).len(),
{
    let t = s.take(b);
    content_grows(t.drop_last(), a);
    assert(t.drop_last().take(a) =~= s.take(a));
    assert(t.last() == s[b - 1]);
}

/// The outcome of accumulating is determined by the three texts.
pub proof fn accumulation_is_determined(
    accumulated: Seq<char>,
    prev: Seq<char>,
    new: Seq<char>,
    a: Seq<char>,
    b: Seq<char>,
)
    requires
        accumulated_text(accumulated, prev, new, a),
        accumulated_text(accumulated, prev, new, b),
    ensures
        a == b,
{
    if accumulated.len() > 0 && overlap(prev, new) > 0 {
        let n = overlap(prev, new);
        let i = choose|k: int|
            #[trigger] reaches(new, n, k) && 0 <= k <= new.len() && a == extended(
                accumulated,
                prev,
                new.skip(k),
            );
        let j = choose|k: int|
            #[trigger] reaches(new, n, k) && 0 <= k <= new.len() && b == extended(
                accumulated,
                prev,
                new.skip(k),
            );
        reach_is_unique(new, n, i, j);
    }
}

/// The running text only ever grows at its end: what was there stays as its beginning.
pub proof fn accumulation_keeps_what_was_there(
    accumulated: Seq<char>,
    prev: Seq<char>,
    new: Seq<char>,
    result: Seq<char>,
)
    requires
        accumulated_text(accumulated, prev, new, result),
    ensures
        text::begins_with(result, accumulated),
{
    if accumulated.len() == 0 {
        assert(result.take(0) =~= accumulated);
    } else if overlap(prev, new) == 0 {
        assert(result.take(accumulated.len() as int) =~= accumulated);
    } else {
        let k = choose|k: int|
            #[trigger] reaches(new, overlap(prev, new), k) && 0 <= k <= new.len() && result
                == extended(accumulated, prev, new.skip(k));
        assert(result.take(accumulated.len() as int) =~= accumulated);
    }
}

/// A window that is transcribed again unchanged adds nothing, not even punctuation.
pub proof fn repeated_text_adds_nothing(
    accumulated: Seq<char>,
    partial: Seq<char>,
    result: Seq<char>,
)
    requires
        accumulated.len() > 0,
        accumulated_text(accumulated, partial, partial, result),
    ensures
        result == accumulated,
{
    let p = content(partial);
    let n = p.len();
    if n > 0 {
        assert(p.skip(0) =~= p.take(n as int));
        assert(continues(p, p, n));
        least_overlap_is_reachable(n);
        overlap_is_longest(partial, partial, n);
        assert(overlap(partial, partial) == n);
        let k = choose|k: int|
            #[trigger] reaches(partial, n, k) && 0 <= k <= partial.len() && result == extended(
                accumulated,
                partial,
                partial.skip(k),
            );
        content_of_concatenation(partial.take(k), partial.skip(k));
        assert(partial.take(k) + partial.skip(k) =~= partial);
        assert(partial.skip(partial.len() - partial.skip(k).len()) =~= partial.skip(k));
    }
}

/// Punctuation that the previous text lacked is new: it is appended also where no content follows
/// it.
pub proof fn late_punctuation_is_appended(
    accumulated: Seq<char>,
    prev: Seq<char>,
    mark: Seq<char>,
    result: Seq<char>,
)
    requires
        accumulated.len() > 0,
        mark.len() > 0,
        content(mark).len() == 0,
        prev.len() > 0,
        !ignorable(prev.last()),
        accumulated_text(accumulated, prev, prev + mark, result),
    ensures
        result == accumulated + mark,
{
    let p = content(prev);
    let n = p.len();
    let new = prev + mark;
    content_of_concatenation(prev, mark);
    assert(content(new) =~= p);
    assert(p.skip(0) =~= p.take(n as int));
    assert(continues(p, content(new), n));
    least_overlap_is_reachable(n);
    overlap_is_longest(prev, new, n);
    assert(new.take(prev.len() as int) =~= prev);
    assert(new[prev.len() - 1] == prev.last());
    assert(reaches(new, n, prev.len() as int));
    let k = choose|k: int|
        #[trigger] reaches(new, n, k) && 0 <= k <= new.len() && result == extended(
            accumulated,
            prev,
            new.skip(k),
        );
    reach_is_unique(new, n, k, prev.len() as int);
    assert(new.skip(k) =~= mark);
    if ends_with(prev, mark) {
        let from = prev.len() - mark.len();
        assert(prev.skip(from).last() == mark.last());
        assert(prev.last() == mark.last());
        assert(mark.drop_last().push(mark.last()) =~= mark);
        assert(false);
    }
}

/// Only new content is appended: what a text that continues the previous one adds to the content is
/// the content behind the overlap.
pub proof fn only_new_content_is_appended(
    accumulated: Seq<char>,
    prev: Seq<char>,
    new: Seq<char>,
    result: Seq<char>,
)
    requires
        accumulated.len() > 0,
        overlap(prev, new) > 0,
        accumulated_text(accumulated, prev, new, result),
    ensures
        content(result) == content(accumulated) + content(new).skip(overlap(prev, new) as int),
{
    let n = overlap(prev, new);
    overlap_is_longest(prev, new, 0);
    let k = choose|k: int|
        #[trigger] reaches(new, n, k) && 0 <= k <= new.len() && result == extended(
            accumulated,
            prev,
            new.skip(k),
        );
    content_of_concatenation(new.take(k), new.skip(k));
    assert(new.take(k) + new.skip(k) =~= new);
    content_of_concatenation(accumulated, new.skip(k));
    assert(content(new).skip(n as int) =~= content(new.skip(k)));
    assert(content(accumulated) + Seq::<char>::empty() =~= content(accumulated));
}

proof fn content_of_concatenation(a: Seq<char>, b: Seq<char>)
    ensures
        content(a + b) == content(a) + content(b),
    decreases b.len(),
{
    if b.len() == 0 {
        assert(a + b =~= a);
        assert(content(a) + content(b) =~= content(a));
    } else {
        content_of_concatenation(a, b.drop_last());
        assert((a + b).drop_last() =~= a + b.drop_last());
        assert(content(a + b) =~= content(a) + content(b));
    }
}

/// Half of a number, even in single precision, does not exceed the number.
proof fn least_overlap_is_reachable(n: nat)
    requires
        n > 0,
    ensures
        least_overlap(n) <= n,
{
    if n >= 0x100_0000 {
        let unit = numeric::binary_unit(n, 0x100_0000);
        unit_in_range(n, 0x100_0000);
        let g = unit / 0x80_0000;
        let q = numeric::nearest_even(n, g);
        assert(n / g * g <= n) by (nonlinear_arith)
            requires
                g > 0,
        ;
        assert(q * g <= n / g * g + g) by (nonlinear_arith)
            requires
                q <= n / g + 1,
                g >= 0,
        ;
    }
}

proof fn unit_in_range(v: nat, unit: nat)
    requires
        0 < unit <= v,
    ensures
        unit <= numeric::binary_unit(v, unit) <= v,
    decreases v - unit,
{
    if v >= 2 * unit {
        unit_in_range(v, 2 * unit);
    }
}

/// What happened since the last step of the transcription loop.
pub enum LoopEvent {
    /// The loop comes round, having paused or started.
    Tick,
    /// The audio window: how many samples there are, nothing where the recording is over.
    Window(Option<usize>),
    /// What the window sounds like: quiet as a whole, and whether it has the energy of speech.
    Level { quiet: bool, energetic: bool },
    /// What came of asking the engine.
    Engine(EngineReply),
}

/// What came of asking the engine for a transcription.
pub enum EngineReply {
    /// Another transcription is running.
    Busy,
    /// The engine is out of order.
    Broken,
    /// The transcription failed.
    Failed,
    /// The transcribed text.
    Text(String),
}

/// What the transcription loop does next.
pub enum LoopAction {
    /// Fetch up to so many of the most recent samples.
    FetchWindow(usize),
    /// Find out what the window sounds like.
    Listen,
    /// Ask the engine for a transcription, if it is free.
    Transcribe,
    /// Pause, waking early on a stop.
    Pause(u64),
    /// Show the running text, then pause.
    EmitThenPause(String, u64),
    /// Leave the loop.
    Exit,
}

/// State of the transcription loop.
pub struct RealtimeTranscriber {
    pub running: bool,
    pub sample_rate: u32,
    pub prev_partial: String,
    pub accumulated: String,
}

impl RealtimeTranscriber {
    /// The window in samples fits a 32-bit number.
    pub open spec fn wf(self) -> bool {
        self.sample_rate * WINDOW_SECS <= u32::MAX
    }

    /// Start the transcription loop.
    pub fn start(sample_rate: u32) -> (t: Self)
        requires
            sample_rate * WINDOW_SECS <= u32::MAX,
        ensures
            t.wf(),
            t.running,
            t.sample_rate == sample_rate,
            t.prev_partial@.len() == 0,
            t.accumulated@.len() == 0,
    {
        RealtimeTranscriber {
            running: true,
            sample_rate,
            prev_partial: String::new(),
            accumulated: String::new(),
        }
    }

    /// The next step of the loop.
    pub fn next_step(&mut self, event: LoopEvent) -> (action: LoopAction)
        requires
            old(self).wf(),
        ensures
            final(self).wf(),
            final(self).running == old(self).running,
            final(self).sample_rate == old(self).sample_rate,
            match event {
                LoopEvent::Tick => *final(self) == *old(self) && (if old(self).running {
                    action matches LoopAction::FetchWindow(n) && n == old(self).sample_rate
                        * WINDOW_SECS
                } else {
                    action is Exit
                }),
                LoopEvent::Window(w) => *final(self) == *old(self) && match w {
                    None => action is Exit,
                    Some(n) => if n == 0 {
                        action matches LoopAction::Pause(ms) && ms == SHORT_STEP_MS
                    } else {
                        action is Listen
                    },
                },
                LoopEvent::Level { quiet, energetic } => *final(self) == *old(self) && (if quiet
                    || !energetic {
                    action matches LoopAction::Pause(ms) && ms == STEP_MS
                } else {
                    action is Transcribe
                }),
                LoopEvent::Engine(EngineReply::Broken) => *final(self) == *old(self)
                    && action is Exit,
                LoopEvent::Engine(EngineReply::Busy) => *final(self) == *old(self) && (
                action matches LoopAction::Pause(ms) && ms == STEP_MS),
                LoopEvent::Engine(EngineReply::Failed) => *final(self) == *old(self) && (
                action matches LoopAction::Pause(ms) && ms == STEP_MS),
                LoopEvent::Engine(EngineReply::Text(t)) => if t@.len() == 0 {
                    *final(self) == *old(self) && (action matches LoopAction::Pause(ms) && ms
                        == STEP_MS)
                } else {
                    &&& final(self).prev_partial == t
                    &&& accumulated_text(
                        old(self).accumulated@,
                        old(self).prev_partial@,
                        t@,
                        final(self).accumulated@,
                    )
                    &&& if old(self).running {
                        action matches LoopAction::EmitThenPause(s, ms) && s@
                            == final(self).accumulated@ && ms == STEP_MS
                    } else {
                        action matches LoopAction::Pause(ms) && ms == STEP_MS
                    }
                },
            },
    {
        match event {
            LoopEvent::Tick => {
                if self.running {
                    LoopAction::FetchWindow((self.sample_rate * WINDOW_SECS) as usize)
                } else {
                    LoopAction::Exit
                }
            },
            LoopEvent::Window(None) => LoopAction::Exit,
            LoopEvent::Window(Some(n)) => {
                if n == 0 {
                    LoopAction::Pause(SHORT_STEP_MS)
                } else {
                    LoopAction::Listen
                }
            },
            LoopEvent::Level { quiet, energetic } => {
                if quiet || !energetic {
                    LoopAction::Pause(STEP_MS)
                } else {
                    LoopAction::Transcribe
                }
            },
            LoopEvent::Engine(EngineReply::Broken) => LoopAction::Exit,
            LoopEvent::Engine(EngineReply::Busy) => LoopAction::Pause(STEP_MS),
            LoopEvent::Engine(EngineReply::Failed) => LoopAction::Pause(STEP_MS),
            LoopEvent::Engine(EngineReply::Text(t)) => {
                if t.as_str().is_empty() {
                    return LoopAction::Pause(STEP_MS);
                }
                let accumulated = accumulate(
                    self.accumulated.as_str(),
                    self.prev_partial.as_str(),
                    t.as_str(),
                );
                self.accumulated = accumulated.clone();
                self.prev_partial = t;
                if self.running {
                    LoopAction::EmitThenPause(accumulated, STEP_MS)
                } else {
                    LoopAction::Pause(STEP_MS)
                }
            },
        }
    }

    /// Take the running text, leaving none.
    pub fn take_accumulated(&mut self) -> (s: String)
        ensures
            s == old(self).accumulated,
            final(self).accumulated@.len() == 0,
            final(self).running == old(self).running,
            final(self).sample_rate == old(self).sample_rate,
            final(self).prev_partial == old(self).prev_partial,
    {
        let mut s = String::new();
        std::mem::swap(&mut s, &mut self.accumulated);
        s
    }

    /// Signal the loop to stop.
    pub fn stop(&mut self)
        ensures
            *final(self) == (RealtimeTranscriber { running: false, ..*old(self) }),
    {
        self.running = false;
    }
}

/// How many polls of the stop flag a pause is made of.
pub fn pause_polls(total_ms: u64) -> (n: u64)
    ensures
        n == (total_ms + STOP_POLL_MS - 1) / STOP_POLL_MS as int,
{
    if total_ms % STOP_POLL_MS == 0 {
        total_ms / STOP_POLL_MS
    } else {
        total_ms / STOP_POLL_MS + 1
    }
}

/// The marks that are ignored besides white space.
pub open spec fn ignored_marks() -> Seq<char> {
    ",.!?;:-—…\u{201C}\u{201D}'，。！？；：、"@
}

/// These marks and white space are ignored, and nothing else: letters, digits and ideographs
/// always count.
pub proof fn only_marks_and_space_are_ignored(c: char, r: bool)
    requires
        call_ensures(is_punct, (c,), r),
    ensures
        r == ignorable(c),
        r <==> ignored_marks().contains(c) || text::white_space(c),
        'a' <= c <= 'z' || 'A' <= c <= 'Z' || '0' <= c <= '9' || '\u{3041}' <= c <= '\u{9FFF}'
            || '\u{AC00}' <= c <= '\u{D7A3}' ==> !r,
{
    reveal_strlit(",.!?;:-—…\u{201C}\u{201D}'，。！？；：、");
    let marks = ignored_marks();
    assert(marks.len() == 19);
    assert(forall|i: int| 0 <= i < 19 ==> ignorable(#[trigger] marks[i]));
    assert(marks[0] == ',' && marks[1] == '.' && marks[2] == '!' && marks[3] == '?');
    assert(marks[4] == ';' && marks[5] == ':' && marks[6] == '-' && marks[7] == '—');
    assert(marks[8] == '…' && marks[9] == '\u{201C}' && marks[10] == '\u{201D}');
    assert(marks[11] == '\'' && marks[12] == '，' && marks[13] == '。' && marks[14] == '！');
    assert(marks[15] == '？' && marks[16] == '；' && marks[17] == '：' && marks[18] == '、');
}

/// What counts of a text is the text without what is ignored, in its order.
pub proof fn content_is_the_text_without_marks(s: Seq<char>)
    ensures
        content(s) == s.filter(|c: char| !ignorable(c)),
        (forall|i: int| 0 <= i < s.len() ==> !ignorable(#[trigger] s[i])) ==> content(s) == s,
    decreases s.len(),
{
    reveal(Seq::filter);
    if s.len() > 0 {
        content_is_the_text_without_marks(s.drop_last());
        if forall|i: int| 0 <= i < s.len() ==> !ignorable(#[trigger] s[i]) {
            assert forall|i: int| 0 <= i < s.len() - 1 implies !ignorable(
                #[trigger] s.drop_last()[i],
            ) by {
                assert(!ignorable(s[i]));
            }
            assert(!ignorable(s[s.len() - 1]));
            assert(s.drop_last().push(s.last()) =~= s);
        }
    } else {
        assert(content(s) =~= s);
    }
}

/// `k` is how much of the new text repeats the end of the previous one: the last `k` characters of
/// the one are the first `k` of the other, and that holds of no greater number.
pub open spec fn repeats(prev: Seq<char>, new: Seq<char>, k: nat) -> bool {
    &&& k <= prev.len()
    &&& k <= new.len()
    &&& prev.subrange(prev.len() - k, prev.len() as int) == new.subrange(0, k as int)
    &&& forall|j: nat|
        k < j <= prev.len() && j <= new.len() ==> prev.subrange(
            prev.len() - j,
            prev.len() as int,
        ) != #[trigger] new.subrange(0, j as int)
}

proof fn slices_agree(p: Seq<char>, n: Seq<char>, k: nat)
    requires
        k <= p.len(),
        k <= n.len(),
    ensures
        continues(p, n, k) <==> p.subrange(p.len() - k, p.len() as int) == n.subrange(0, k as int),
{
    assert(p.skip(p.len() - k) =~= p.subrange(p.len() - k, p.len() as int));
    assert(n.take(k as int) =~= n.subrange(0, k as int));
}

proof fn overlap_is_what_repeats(prev: Seq<char>, new: Seq<char>, m: nat)
    requires
        content(prev).len() < 0x100_0000,
        m >= 1,
        m >= content(prev).len() / 2,
        m <= content(prev).len(),
        m <= content(new).len(),
        content(prev).subrange(content(prev).len() - m, content(prev).len() as int) == content(
            new,
        ).subrange(0, m as int),
    ensures
        overlap(prev, new) >= m,
        repeats(content(prev), content(new), overlap(prev, new)),
{
    let p = content(prev);
    let n = content(new);
    let k = overlap(prev, new);
    slices_agree(p, n, m);
    overlap_is_longest(prev, new, m);
    slices_agree(p, n, k);
    assert forall|j: nat| k < j <= p.len() && j <= n.len() implies p.subrange(
        p.len() - j,
        p.len() as int,
    ) != #[trigger] n.subrange(0, j as int) by {
        slices_agree(p, n, j);
        overlap_is_longest(prev, new, j);
    }
}

/// A window that slid is a continuation: where at least half of what counts of the previous text,
/// and at least one character, is repeated at the beginning of the new one, what lies behind the
/// longest repetition is appended to the running text.
pub proof fn a_window_that_slid_is_continued(
    running: &str,
    prev: &str,
    new: &str,
    r: String,
    m: nat,
)
    requires
        call_ensures(accumulate, (running, prev, new), r),
        running@.len() > 0,
        content(prev@).len() < 0x100_0000,
        m >= 1,
        m >= content(prev@).len() / 2,
        m <= content(prev@).len(),
        m <= content(new@).len(),
        content(prev@).subrange(content(prev@).len() - m, content(prev@).len() as int) == content(
            new@,
        ).subrange(0, m as int),
    ensures
        exists|k: nat, cut: int|
            {
                &&& m <= k
                &&& #[trigger] repeats(content(prev@), content(new@), k)
                &&& 0 < cut <= new@.len()
                &&& content(new@.take(cut)).len() == k
                &&& !ignorable(new@[cut - 1])
                &&& content(r@) == content(running@) + content(new@).skip(k as int)
                &&& k < content(new@).len() ==> r@ == running@ + #[trigger] new@.skip(cut)
                &&& r@ == running@ || r@ == running@ + new@.skip(cut)
            },
{
    let k = overlap(prev@, new@);
    overlap_is_what_repeats(prev@, new@, m);
    only_new_content_is_appended(running@, prev@, new@, r@);
    let cut = choose|c: int|
        #[trigger] reaches(new@, k, c) && 0 <= c <= new@.len() && r@ == extended(
            running@,
            prev@,
            new@.skip(c),
        );
    assert(0 < cut && content(new@.take(cut)).len() == k && !ignorable(new@[cut - 1]));
    content_of_concatenation(new@.take(cut), new@.skip(cut));
    assert(new@.take(cut) + new@.skip(cut) =~= new@);
    assert(repeats(content(prev@), content(new@), k));
    assert(new@.skip(cut) == new@.skip(cut));
}

/// A text that repeats less than half of the previous one is no continuation, and nothing of it is
/// appended.
pub proof fn a_text_that_does_not_continue_is_left_out(
    running: &str,
    prev: &str,
    new: &str,
    r: String,
)
    requires
        call_ensures(accumulate, (running, prev, new), r),
        running@.len() > 0,
        content(prev@).len() < 0x100_0000,
        forall|m: nat|
            1 <= m <= content(prev@).len() && content(prev@).len() / 2 <= m <= content(new@).len()
                ==> content(prev@).subrange(
                content(prev@).len() - m,
                content(prev@).len() as int,
            ) != #[trigger] content(new@).subrange(0, m as int),
    ensures
        r@ == running@,
{
    let k = overlap(prev@, new@);
    if k > 0 {
        overlap_is_longest(prev@, new@, 0);
        slices_agree(content(prev@), content(new@), k);
        assert(content(new@).subrange(0, k as int) == content(new@).subrange(0, k as int));
        assert(k >= content(prev@).len() / 2);
    }
}

/// The first text is taken as it is.
pub proof fn the_first_text_is_taken_whole(running: &str, prev: &str, new: &str, r: String)
    requires
        call_ensures(accumulate, (running, prev, new), r),
        running@.len() == 0,
    ensures
        r@ == new@,
{
}

/// Accumulating the same text again changes nothing, while a mark that comes late is kept.
pub proof fn repeating_adds_nothing_and_late_marks_stay(
    running: &str,
    prev: &str,
    marked: &str,
    again: String,
    late: String,
)
    requires
        call_ensures(accumulate, (running, prev, prev), again),
        call_ensures(accumulate, (running, prev, marked), late),
        running@.len() > 0,
        prev@.len() > 0,
        !ignorable(prev@.last()),
        text::begins_with(marked@, prev@),
        marked@.len() > prev@.len(),
        forall|i: int| prev@.len() <= i < marked@.len() ==> ignorable(#[trigger] marked@[i]),
    ensures
        again@ == running@,
        late@ == running@ + marked@.skip(prev@.len() as int),
{
    repeated_text_adds_nothing(running@, prev@, again@);
    let mark = marked@.skip(prev@.len() as int);
    assert(marked@ =~= prev@ + mark);
    assert forall|i: int| 0 <= i < mark.len() implies ignorable(#[trigger] mark[i]) by {
        assert(mark[i] == marked@[i + prev@.len()]);
    }
    marks_hold_no_content(mark);
    late_punctuation_is_appended(running@, prev@, mark, late@);
}

proof fn marks_hold_no_content(s: Seq<char>)
    requires
        forall|i: int| 0 <= i < s.len() ==> ignorable(#[trigger] s[i]),
    ensures
        content(s).len() == 0,
    decreases s.len(),
{
    if s.len() > 0 {
        assert(ignorable(s[s.len() - 1]));
        assert forall|i: int| 0 <= i < s.len() - 1 implies ignorable(#[trigger] s.drop_last()[i]) by {
            assert(ignorable(s[i]));
        }
        marks_hold_no_content(s.drop_last());
    }
}

/// New content begins at the byte just behind the longest repetition, where at least half of the
/// previous text is repeated.
pub proof fn new_content_begins_behind_the_repetition(prev: &str, new: &str, r: usize, m: nat)
    requires
        call_ensures(find_overlap_end, (prev, new), r),
        content(prev@).len() < 0x100_0000,
        m >= 1,
        m >= content(prev@).len() / 2,
        m <= content(prev@).len(),
        m <= content(new@).len(),
        content(prev@).subrange(content(prev@).len() - m, content(prev@).len() as int) == content(
            new@,
        ).subrange(0, m as int),
    ensures
        r > 0,
        exists|k: nat, cut: int|
            {
                &&& m <= k
                &&& #[trigger] repeats(content(prev@), content(new@), k)
                &&& 0 < cut <= new@.len()
                &&& content(new@.take(cut)).len() == k
                &&& !ignorable(new@[cut - 1])
                &&& r == #[trigger] vstd::utf8::encode_utf8(new@.take(cut)).len()
            },
{
    let k = overlap(prev@, new@);
    overlap_is_what_repeats(prev@, new@, m);
    let cut = choose|c: int|
        #[trigger] overlap_end(prev@, new@, c) && 0 <= c <= new@.len() && r == text::byte_len(
            new@.take(c),
        );
    assert(repeats(content(prev@), content(new@), k));
    assert(r == vstd::utf8::encode_utf8(new@.take(cut)).len());
}

/// While the loop runs, every half second the last five seconds are transcribed, unless there is no
/// sound yet or none worth transcribing; what is not a text changes nothing.
pub proof fn the_loop_listens_every_half_second(
    t: &mut RealtimeTranscriber,
    event: LoopEvent,
    action: LoopAction,
)
    requires
        call_ensures(RealtimeTranscriber::next_step, (t, event), action),
    ensures
        event !is Engine || !(event->Engine_0 is Text) ==> *final(t) == *old(t),
        event is Tick ==> (action matches LoopAction::FetchWindow(n) && n == 5 * old(t).sample_rate)
            == old(t).running && (action is Exit) == !old(t).running,
        event matches LoopEvent::Window(w) ==> match w {
            None => action is Exit,
            Some(0) => action matches LoopAction::Pause(ms) && ms == 100,
            Some(_) => action is Listen,
        },
        event matches LoopEvent::Level { quiet, energetic } ==> ((action is Transcribe) == (!quiet
            && energetic)) && (!(action is Transcribe) ==> (action matches LoopAction::Pause(ms)
            && ms == 500)),
        event matches LoopEvent::Engine(EngineReply::Broken) ==> action is Exit,
        (event matches LoopEvent::Engine(reply) && !(reply is Broken)) ==> {
            ||| action matches LoopAction::Pause(ms) && ms == 500
            ||| action matches LoopAction::EmitThenPause(_, ms) && ms == 500
        },
{
}

/// A transcribed window goes into the running text as accumulating says, is what the next one is
/// matched against, and is shown while the loop runs.
pub proof fn a_transcribed_window_is_accumulated(
    t: &mut RealtimeTranscriber,
    text: String,
    action: LoopAction,
    running: &str,
    prev: &str,
    new: &str,
    r: String,
)
    requires
        call_ensures(
            RealtimeTranscriber::next_step,
            (t, LoopEvent::Engine(EngineReply::Text(text))),
            action,
        ),
        text@.len() > 0,
        running@ == old(t).accumulated@,
        prev@ == old(t).prev_partial@,
        new@ == text@,
        call_ensures(accumulate, (running, prev, new), r),
    ensures
        final(t).prev_partial@ == text@,
        final(t).accumulated@ == r@,
        final(t).running == old(t).running,
        (action matches LoopAction::EmitThenPause(s, ms) && s@ == r@) == old(t).running,
{
    accumulation_is_determined(running@, prev@, new@, final(t).accumulated@, r@);
}

/// A window of audio is the latest part of the recording, as much as is asked for, or all of it where
/// there is less; without a recording there is none.
pub proof fn a_window_is_the_latest_audio<T: Copy>(
    buffer: Option<Vec<T>>,
    s: StateMachineAudioSource<T>,
    n: usize,
    r: Option<Vec<T>>,
    j: int,
)
    requires
        call_ensures(StateMachineAudioSource::<T>::new, (buffer,), s),
        call_ensures(StateMachineAudioSource::<T>::get_recent_samples, (&s, n), r),
    ensures
        r is Some <==> buffer is Some,
        r is Some ==> {
            let all = buffer->0@;
            let v = r->0@;
            &&& v.len() == (if n < all.len() {
                n as nat
            } else {
                all.len()
            })
            &&& 0 <= j < v.len() ==> v[v.len() - 1 - j] == all[all.len() - 1 - j]
        },
{
}

/// A loop starts with no text and runs until it is stopped; its text can be taken once.
pub proof fn a_loop_starts_empty_and_hands_its_text_out_once(
    rate: u32,
    t: RealtimeTranscriber,
    s: &mut RealtimeTranscriber,
    done: (),
    a: &mut RealtimeTranscriber,
    first: String,
    b: &mut RealtimeTranscriber,
    second: String,
)
    requires
        call_ensures(RealtimeTranscriber::start, (rate,), t),
        call_ensures(RealtimeTranscriber::stop, (s,), done),
        call_ensures(RealtimeTranscriber::take_accumulated, (a,), first),
        *old(b) == *final(a),
        call_ensures(RealtimeTranscriber::take_accumulated, (b,), second),
    ensures
        t.running && t.sample_rate == rate && t.prev_partial@.len() == 0 && t.accumulated@.len()
            == 0,
        !final(s).running && final(s).accumulated == old(s).accumulated && final(s).prev_partial
            == old(s).prev_partial,
        first == old(a).accumulated && second@.len() == 0,
{
}

/// A pause is made of looks at the stop flag every fifty milliseconds, just as many as it takes.
pub proof fn a_pause_looks_at_the_stop_flag(total_ms: u64, n: u64)
    requires
        call_ensures(pause_polls, (total_ms,), n),
    ensures
        50 * n >= total_ms,
        50 * n < total_ms + 50,
{
}

} // verus!
