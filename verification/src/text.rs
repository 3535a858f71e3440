//! Character-level text operations and what they mean on sequences of characters.

use vstd::prelude::*;

verus! {

/// `String::push` of std appends one character at the end of the string.
pub assume_specification[ String::push ](s: &mut String, c: char)
    ensures
        final(s)@ == old(s)@.push(c),
;

/// The characters that Unicode gives the `White_Space` property.
pub open spec fn white_space(c: char) -> bool {
    ||| '\u{9}' <= c <= '\u{D}'
    ||| c == ' '
    ||| c == '\u{85}'
    ||| c == '\u{A0}'
    ||| c == '\u{1680}'
    ||| '\u{2000}' <= c <= '\u{200A}'
    ||| c == '\u{2028}'
    ||| c == '\u{2029}'
    ||| c == '\u{202F}'
    ||| c == '\u{205F}'
    ||| c == '\u{3000}'
}

pub fn is_white_space(c: char) -> (r: bool)
    ensures
        r == white_space(c),
{
    ('\u{9}' <= c && c <= '\u{D}') || c == ' ' || c == '\u{85}' || c == '\u{A0}' || c == '\u{1680}'
        || ('\u{2000}' <= c && c <= '\u{200A}') || c == '\u{2028}' || c == '\u{2029}'
        || c == '\u{202F}' || c == '\u{205F}' || c == '\u{3000}'
}

/// `s` without its leading white space.
pub open spec fn trimmed_start(s: Seq<char>) -> Seq<char>
    decreases s.len(),
{
    if s.len() > 0 && white_space(s[0]) {
        trimmed_start(s.drop_first())
    } else {
        s
    }
}

/// `s` without its trailing white space.
pub open spec fn trimmed_end(s: Seq<char>) -> Seq<char>
    decreases s.len(),
{
    if s.len() > 0 && white_space(s.last()) {
        trimmed_end(s.drop_last())
    } else {
        s
    }
}

/// `s` without the white space at either end.
pub open spec fn trimmed(s: Seq<char>) -> Seq<char> {
    trimmed_end(trimmed_start(s))
}

/// The characters of a string, in order.
pub fn chars_of(s: &str) -> (v: Vec<char>)
    ensures
        v@ == s@,
{
    let mut v: Vec<char> = Vec::new();
    for c in it: s.chars()
        invariant
            v@ == s@.take(it.index() as int),
            it.seq() == s@,
    {
        v.push(c);
    }
    v
}

/// The characters `from .. to` of `v` as a string.
pub fn text_between(v: &Vec<char>, from: usize, to: usize) -> (s: String)
    requires
        from <= to <= v@.len(),
    ensures
        s@ == v@.subrange(from as int, to as int),
{
    let mut s = String::new();
    let mut i: usize = from;
    while i < to
        invariant
            from <= i <= to <= v@.len(),
            s@ == v@.subrange(from as int, i as int),
        decreases to - i,
    {
        s.push(v[i]);
        i = i + 1;
    }
    s
}

/// Whether two strings hold the same characters.
pub fn same_text(a: &str, b: &str) -> (r: bool)
    ensures
        r == (a@ == b@),
{
    a.to_owned() == b.to_owned()
}

/// `s` without the white space at either end.
pub fn trim(s: &str) -> (r: String)
    ensures
        r@ == trimmed(s@),
{
    let v = chars_of(s);
    let mut from: usize = 0;
    assert(v@.skip(0) =~= v@);
    while from < v.len() && is_white_space(v[from])
        invariant
            from <= v@.len(),
            trimmed_start(v@) == trimmed_start(v@.skip(from as int)),
        ensures
            from <= v@.len(),
            trimmed_start(v@) == v@.skip(from as int),
        decreases v@.len() - from,
    {
        assert(v@.skip(from as int).drop_first() =~= v@.skip(from + 1));
        from = from + 1;
    }
    let mut to: usize = v.len();
    while from < to && is_white_space(v[to - 1])
        invariant
            from <= to <= v@.len(),
            trimmed(v@) == trimmed_end(v@.subrange(from as int, to as int)),
        ensures
            from <= to <= v@.len(),
            trimmed(v@) == v@.subrange(from as int, to as int),
        decreases to,
    {
        assert(v@.subrange(from as int, to as int).drop_last() =~= v@.subrange(
            from as int,
            to - 1,
        ));
        to = to - 1;
    }
    text_between(&v, from, to)
}

/// Whether `s` begins with `prefix`.
pub open spec fn begins_with(s: Seq<char>, prefix: Seq<char>) -> bool {
    prefix.len() <= s.len() && s.take(prefix.len() as int) == prefix
}

/// Whether `s` ends with `suffix`.
pub open spec fn finishes_with(s: Seq<char>, suffix: Seq<char>) -> bool {
    suffix.len() <= s.len() && s.skip(s.len() - suffix.len()) == suffix
}

/// Whether `needle` occurs in `s` from position `i` on.
pub open spec fn occurs_at(s: Seq<char>, needle: Seq<char>, i: int) -> bool {
    0 <= i && i + needle.len() <= s.len() && s.subrange(i, i + needle.len()) == needle
}

/// Whether `needle` occurs anywhere in `s`.
pub open spec fn occurs_in(s: Seq<char>, needle: Seq<char>) -> bool {
    exists|i: int| #[trigger] occurs_at(s, needle, i)
}

/// Whether `needle` stands in `v` at position `at`.
pub fn matches_at(v: &Vec<char>, needle: &Vec<char>, at: usize) -> (r: bool)
    ensures
        r == occurs_at(v@, needle@, at as int),
{
    if at > v.len() || needle.len() > v.len() - at {
        return false;
    }
    let mut i: usize = 0;
    while i < needle.len()
        invariant
            i <= needle@.len(),
            at + needle@.len() <= v.len(),
            forall|j: int| 0 <= j < i ==> v@[at + j] == needle@[j],
        decreases needle@.len() - i,
    {
        if v[at + i] != needle[i] {
            assert(v@.subrange(at as int, at + needle@.len())[i as int] != needle@[i as int]);
            return false;
        }
        i = i + 1;
    }
    assert(v@.subrange(at as int, at + needle@.len()) =~= needle@);
    true
}

pub fn starts_with(s: &str, prefix: &str) -> (r: bool)
    ensures
        r == begins_with(s@, prefix@),
{
    let v = chars_of(s);
    let p = chars_of(prefix);
    let r = matches_at(&v, &p, 0);
    assert(p@.len() <= v@.len() ==> v@.subrange(0, p@.len() as int) =~= v@.take(p@.len() as int));
    r
}

pub fn ends_with(s: &str, suffix: &str) -> (r: bool)
    ensures
        r == finishes_with(s@, suffix@),
{
    let v = chars_of(s);
    let p = chars_of(suffix);
    if p.len() > v.len() {
        return false;
    }
    let r = matches_at(&v, &p, v.len() - p.len());
    assert(v@.subrange(v@.len() - p@.len(), v@.len() as int) =~= v@.skip(v@.len() - p@.len()));
    r
}

pub fn contains(s: &str, needle: &str) -> (r: bool)
    ensures
        r == occurs_in(s@, needle@),
{
    let v = chars_of(s);
    let p = chars_of(needle);
    if p.len() > v.len() {
        return false;
    }
    let last: usize = v.len() - p.len();
    let mut i: usize = 0;
    while i < last
        invariant
            v@ == s@,
            p@ == needle@,
            last == v@.len() - p@.len(),
            i <= last,
            forall|j: int| 0 <= j < i ==> !occurs_at(v@, p@, j),
        decreases last - i,
    {
        if matches_at(&v, &p, i) {
            return true;
        }
        i = i + 1;
    }
    matches_at(&v, &p, last)
}

/// The decimal digit for a number below ten.
pub open spec fn digit(d: nat) -> char {
    ('0' as nat + d) as char
}

/// `n` in decimal, without leading zeros.
pub open spec fn decimal(n: nat) -> Seq<char>
    decreases n,
{
    if n < 10 {
        seq![digit(n)]
    } else {
        decimal(n / 10).push(digit(n % 10))
    }
}

pub fn digit_char(d: u64) -> (c: char)
    requires
        d < 10,
    ensures
        c == digit(d as nat),
{
    (48u8 + d as u8) as char
}

/// `n` in decimal, without leading zeros.
pub fn decimal_text(n: u64) -> (s: String)
    ensures
        s@ == decimal(n as nat),
    decreases n,
{
    let mut s = if n < 10 {
        String::new()
    } else {
        decimal_text(n / 10)
    };
    s.push(digit_char(n % 10));
    s
}

/// The lower-case form of an ASCII letter; any other character is its own.
pub open spec fn lower(c: char) -> char {
    if 'A' <= c <= 'Z' {
        (c as int + 32) as char
    } else {
        c
    }
}

/// `s` with its ASCII letters in lower case.
pub open spec fn lowered(s: Seq<char>) -> Seq<char> {
    Seq::new(s.len(), |i: int| lower(s[i]))
}

fn to_lower(c: char) -> (r: char)
    ensures
        r == lower(c),
{
    if 'A' <= c && c <= 'Z' {
        ((c as u8) + 32u8) as char
    } else {
        c
    }
}

/// `s` with its ASCII letters in lower case.
pub fn ascii_lowered(s: &str) -> (r: String)
    ensures
        r@ == lowered(s@),
{
    let v = chars_of(s);
    let mut out = String::new();
    let mut i: usize = 0;
    while i < v.len()
        invariant
            i <= v@.len(),
            out@ == lowered(v@.take(i as int)),
        decreases v@.len() - i,
    {
        out.push(to_lower(v[i]));
        i = i + 1;
        assert(lowered(v@.take(i as int)) =~= lowered(v@.take(i - 1)).push(lower(v@[i - 1])));
    }
    assert(v@.take(i as int) =~= v@);
    out
}

/// `s` with every occurrence of `needle` replaced, from left to right without overlap.
pub open spec fn replaced(s: Seq<char>, needle: Seq<char>, with: Seq<char>) -> Seq<char>
    decreases s.len(),
{
    if s.len() == 0 || needle.len() == 0 {
        s
    } else if occurs_at(s, needle, 0) {
        with + replaced(s.skip(needle.len() as int), needle, with)
    } else {
        seq![s[0]] + replaced(s.skip(1), needle, with)
    }
}

/// `s` with every occurrence of the non-empty `needle` replaced, from left to right without
/// overlap.
pub fn replace(s: &str, needle: &str, with: &str) -> (r: String)
    requires
        needle@.len() > 0,
    ensures
        r@ == replaced(s@, needle@, with@),
{
    let v = chars_of(s);
    let n = chars_of(needle);
    let mut out = String::new();
    let mut i: usize = 0;
    assert(v@.skip(0) =~= v@);
    assert(out@ + replaced(v@, needle@, with@) =~= replaced(v@, needle@, with@));
    while i < v.len()
        invariant
            i <= v@.len(),
            n@ == needle@,
            needle@.len() > 0,
            out@ + replaced(v@.skip(i as int), needle@, with@) == replaced(v@, needle@, with@),
        decreases v@.len() - i,
    {
        let ghost rest = v@.skip(i as int);
        let ghost before = out@;
        if matches_at(&v, &n, i) {
            proof {
                assert(rest.subrange(0, n@.len() as int) =~= v@.subrange(i as int, i + n@.len()));
                assert(rest.skip(n@.len() as int) =~= v@.skip(i + n@.len()));
            }
            out.append(with);
            i = i + n.len();
            assert(out@ + replaced(v@.skip(i as int), needle@, with@) =~= before + (with@
                + replaced(v@.skip(i as int), needle@, with@)));
        } else {
            proof {
                if occurs_at(rest, n@, 0) {
                    assert(rest.subrange(0, n@.len() as int) =~= v@.subrange(
                        i as int,
                        i + n@.len(),
                    ));
                }
                assert(rest.skip(1) =~= v@.skip(i + 1));
            }
            out.push(v[i]);
            i = i + 1;
            assert(out@ + replaced(v@.skip(i as int), needle@, with@) =~= before + (seq![rest[0]]
                + replaced(v@.skip(i as int), needle@, with@)));
        }
    }
    assert(out@ + replaced(v@.skip(i as int), needle@, with@) =~= out@);
    out
}

/// The first `n` characters of `s`, or all of it where it is shorter.
pub open spec fn shortened(s: Seq<char>, n: nat) -> Seq<char> {
    if s.len() <= n {
        s
    } else {
        s.take(n as int)
    }
}

/// The first `n` characters of `s`, or all of it where it is shorter.
pub fn take_chars(s: &str, n: usize) -> (r: String)
    ensures
        r@ == shortened(s@, n as nat),
{
    let v = chars_of(s);
    let to: usize = if v.len() <= n {
        v.len()
    } else {
        n
    };
    let r = text_between(&v, 0, to);
    assert(v@.subrange(0, to as int) =~= shortened(s@, n as nat));
    r
}

/// How many bytes a character takes in UTF-8.
pub open spec fn char_bytes(c: char) -> nat {
    vstd::utf8::encode_scalar(c as u32).len()
}

/// How many bytes a text takes in UTF-8.
pub open spec fn byte_len(s: Seq<char>) -> nat {
    vstd::utf8::encode_utf8(s).len()
}

proof fn byte_len_of_push(s: Seq<char>, c: char)
    ensures
        byte_len(s.push(c)) == byte_len(s) + char_bytes(c),
    decreases s.len(),
{
    reveal_with_fuel(vstd::utf8::encode_utf8, 2);
    if s.len() == 0 {
        assert(s.push(c).drop_first() =~= Seq::<char>::empty());
    } else {
        byte_len_of_push(s.drop_first(), c);
        assert(s.push(c).drop_first() =~= s.drop_first().push(c));
    }
}

proof fn byte_len_grows(s: Seq<char>, k: int)
    requires
        0 <= k <= s.len(),
    ensures
        byte_len(s.take(k)) <= byte_len(s),
        k > 0 ==> byte_len(s.take(k)) > 0,
    decreases s.len() - k,
{
    if k > 0 {
        assert(s.take(k) =~= s.take(k - 1).push(s[k - 1]));
        byte_len_of_push(s.take(k - 1), s[k - 1]);
    }
    if k == s.len() {
        assert(s.take(k) =~= s);
    } else {
        assert(s.take(k + 1) =~= s.take(k).push(s[k]));
        byte_len_of_push(s.take(k), s[k]);
        byte_len_grows(s, k + 1);
    }
}

fn utf8_width(c: char) -> (n: usize)
    ensures
        n == char_bytes(c),
        1 <= n <= 4,
{
    let code: u32 = c as u32;
    if code <= 0x7F {
        1
    } else if code <= 0x7FF {
        2
    } else if code <= 0xFFFF {
        3
    } else {
        4
    }
}

/// How many bytes the first `k` characters of `s` take.
pub fn bytes_before(s: &str, k: usize) -> (n: usize)
    requires
        k <= s@.len(),
    ensures
        n == byte_len(s@.take(k as int)),
        n == 0 <==> k == 0,
{
    let v = chars_of(s);
    let total: usize = s.as_bytes().len();
    let mut n: usize = 0;
    let mut i: usize = 0;
    assert(s@.take(0) =~= Seq::<char>::empty());
    while i < k
        invariant
            i <= k <= v@.len(),
            v@ == s@,
            total == byte_len(s@),
            n == byte_len(s@.take(i as int)),
        decreases k - i,
    {
        proof {
            assert(s@.take(i + 1) =~= s@.take(i as int).push(s@[i as int]));
            byte_len_of_push(s@.take(i as int), s@[i as int]);
            byte_len_grows(s@, i + 1);
        }
        n = n + utf8_width(v[i]);
        i = i + 1;
    }
    proof {
        byte_len_grows(s@, k as int);
    }
    n
}

/// White space is what Unicode lists as such: the controls from tab to carriage return, and the
/// spaces and separators of all scripts.
pub proof fn white_space_is_what_unicode_lists(c: char, r: bool)
    requires
        call_ensures(is_white_space, (c,), r),
    ensures
        r == white_space(c),
        r <==> {
            let code = c as u32;
            ||| code == 0x09 || code == 0x0A || code == 0x0B || code == 0x0C || code == 0x0D
            ||| code == 0x20 || code == 0x85 || code == 0xA0 || code == 0x1680
            ||| 0x1FFF < code < 0x200B
            ||| code == 0x2028 || code == 0x2029 || code == 0x202F || code == 0x205F
            ||| code == 0x3000
        },
{
}

proof fn start_of_text(s: Seq<char>) -> (i: int)
    ensures
        0 <= i <= s.len(),
        trimmed_start(s) == s.skip(i),
        forall|k: int| 0 <= k < i ==> white_space(#[trigger] s[k]),
        i < s.len() ==> !white_space(s[i]),
    decreases s.len(),
{
    if s.len() > 0 && white_space(s[0]) {
        let i = start_of_text(s.drop_first());
        assert(s.drop_first().skip(i) =~= s.skip(i + 1));
        assert forall|k: int| 0 <= k < i + 1 implies white_space(#[trigger] s[k]) by {
            if k > 0 {
                assert(white_space(s.drop_first()[k - 1]));
            }
        }
        i + 1
    } else {
        assert(s.skip(0) =~= s);
        0
    }
}

proof fn end_of_text(s: Seq<char>) -> (j: int)
    ensures
        0 <= j <= s.len(),
        trimmed_end(s) == s.take(j),
        forall|k: int| j <= k < s.len() ==> white_space(#[trigger] s[k]),
        j > 0 ==> !white_space(s[j - 1]),
    decreases s.len(),
{
    if s.len() > 0 && white_space(s.last()) {
        let j = end_of_text(s.drop_last());
        assert(s.drop_last().take(j) =~= s.take(j));
        assert forall|k: int| j <= k < s.len() implies white_space(#[trigger] s[k]) by {
            if k < s.len() - 1 {
                assert(white_space(s.drop_last()[k]));
            }
        }
        j
    } else {
        assert(s.take(s.len() as int) =~= s);
        s.len() as int
    }
}

/// What trimming leaves, and that it is all between the first and the last character that is not
/// white space.
pub proof fn trimmed_is_what_lies_between(s: Seq<char>) -> (b: (int, int))
    ensures
        0 <= b.0 <= b.1 <= s.len(),
        trimmed(s) == s.subrange(b.0, b.1),
        forall|k: int| 0 <= k < b.0 || b.1 <= k < s.len() ==> white_space(#[trigger] s[k]),
        b.0 < b.1 ==> !white_space(s[b.0]) && !white_space(s[b.1 - 1]),
{
    let i = start_of_text(s);
    let t = s.skip(i);
    let j = end_of_text(t);
    assert(t.take(j) =~= s.subrange(i, i + j));
    assert forall|k: int| 0 <= k < i || i + j <= k < s.len() implies white_space(
        #[trigger] s[k],
    ) by {
        if k >= i {
            assert(white_space(t[k - i]));
        }
    }
    if j > 0 {
        assert(t[j - 1] == s[i + j - 1]);
    }
    (i, i + j)
}

/// Trimming takes white space off both ends of a text and leaves all that lies between, white space
/// too.
pub proof fn trimming_takes_off_the_ends_only(s: &str, r: String)
    requires
        call_ensures(trim, (s,), r),
    ensures
        exists|i: int, j: int|
            {
                &&& 0 <= i <= j <= s@.len()
                &&& r@ == #[trigger] s@.subrange(i, j)
                &&& forall|k: int| 0 <= k < i || j <= k < s@.len() ==> white_space(#[trigger] s@[k])
                &&& i < j ==> !white_space(s@[i]) && !white_space(s@[j - 1])
            },
{
    let b = trimmed_is_what_lies_between(s@);
    assert(r@ == s@.subrange(b.0, b.1));
}

/// A text holds another one if it is made up of something, the other one and something.
pub proof fn containing_is_being_around(s: &str, needle: &str, r: bool)
    requires
        call_ensures(contains, (s, needle), r),
    ensures
        r <==> exists|a: Seq<char>, b: Seq<char>| s@ == #[trigger] (a + needle@ + b),
        r == occurs_in(s@, needle@),
{
    let n = needle@;
    if r {
        let i = choose|i: int| #[trigger] occurs_at(s@, n, i);
        let a = s@.take(i);
        let b = s@.skip(i + n.len());
        assert(s@ =~= a + s@.subrange(i, i + n.len()) + b);
        assert(s@ == a + n + b);
    }
    if exists|a: Seq<char>, b: Seq<char>| s@ == #[trigger] (a + n + b) {
        let (a, b) = choose|a: Seq<char>, b: Seq<char>| s@ == #[trigger] (a + n + b);
        assert(s@.subrange(a.len() as int, a.len() as int + n.len()) =~= n);
        assert(occurs_at(s@, n, a.len() as int));
    }
}

/// A text starts with another one if something is made of the other one and a rest, and ends with
/// it if something is made of a rest and the other one.
pub proof fn starts_and_ends(s: &str, part: &str, starts: bool, ends: bool)
    requires
        call_ensures(starts_with, (s, part), starts),
        call_ensures(ends_with, (s, part), ends),
    ensures
        starts <==> exists|b: Seq<char>| s@ == #[trigger] (part@ + b),
        ends <==> exists|a: Seq<char>| s@ == #[trigger] (a + part@),
{
    let n = part@;
    if starts {
        assert(s@ =~= n + s@.skip(n.len() as int));
    }
    if exists|b: Seq<char>| s@ == #[trigger] (n + b) {
        let b = choose|b: Seq<char>| s@ == #[trigger] (n + b);
        assert(s@.take(n.len() as int) =~= n);
    }
    if ends {
        assert(s@ =~= s@.take(s@.len() - n.len()) + n);
    }
    if exists|a: Seq<char>| s@ == #[trigger] (a + n) {
        let a = choose|a: Seq<char>| s@ == #[trigger] (a + n);
        assert(s@.skip(s@.len() - n.len()) =~= n);
    }
}

/// What a text of decimal digits means as a number.
pub open spec fn number_meant(s: Seq<char>) -> int
    decreases s.len(),
{
    if s.len() == 0 {
        0
    } else {
        10 * number_meant(s.drop_last()) + (s.last() as int - '0' as int)
    }
}

/// A number in decimal means that number: it is made of digits and has no needless zero in front.
pub proof fn decimal_means_the_number(n: u64, r: String)
    requires
        call_ensures(decimal_text, (n,), r),
    ensures
        number_meant(r@) == n,
        r@.len() > 0,
        forall|i: int| 0 <= i < r@.len() ==> '0' <= #[trigger] r@[i] <= '9',
        r@.len() > 1 ==> r@[0] != '0',
{
    decimal_digits_mean(n as nat);
}

/// The decimal form of a number of any size means that number.
pub proof fn decimal_digits_mean(n: nat)
    ensures
        number_meant(decimal(n)) == n,
        decimal(n).len() > 0,
        forall|i: int| 0 <= i < decimal(n).len() ==> '0' <= #[trigger] decimal(n)[i] <= '9',
        n > 0 ==> decimal(n)[0] != '0',
    decreases n,
{
    reveal_with_fuel(number_meant, 2);
    if n >= 10 {
        decimal_digits_mean(n / 10);
        let d = decimal(n);
        assert(d.drop_last() =~= decimal(n / 10));
        assert forall|i: int| 0 <= i < d.len() implies '0' <= #[trigger] d[i] <= '9' by {
            if i < d.len() - 1 {
                assert(d[i] == decimal(n / 10)[i]);
            }
        }
        assert(d[0] == decimal(n / 10)[0]);
    } else {
        assert(decimal(n).drop_last() =~= Seq::<char>::empty());
    }
}

/// Lower case moves the letters from A to Z and nothing else.
pub proof fn lower_case_moves_letters_only(s: &str, r: String)
    requires
        call_ensures(ascii_lowered, (s,), r),
    ensures
        r@.len() == s@.len(),
        forall|i: int|
            0 <= i < s@.len() ==> (#[trigger] r@[i]) as u32 == (if 'A' <= s@[i] <= 'Z' {
                s@[i] as u32 + 32
            } else {
                s@[i] as int
            }),
{
}

/// What replacing does at the first place where the sought text occurs: what stands before stays,
/// and the replacing goes on behind. A text in which it does not occur stays as it is.
pub proof fn replacing_goes_from_left_to_right(
    s: &str,
    needle: &str,
    with: &str,
    r: String,
    before: Seq<char>,
    rest: &str,
    rest_replaced: String,
)
    requires
        needle@.len() > 0,
        call_ensures(replace, (s, needle, with), r),
        call_ensures(replace, (rest, needle, with), rest_replaced),
    ensures
        !occurs_in(s@, needle@) ==> r@ == s@,
        s@ == before + needle@ + rest@ && (forall|i: int|
            0 <= i < before.len() ==> !#[trigger] occurs_at(s@, needle@, i)) ==> r@ == before
            + with@ + rest_replaced@,
{
    if !occurs_in(s@, needle@) {
        assert forall|i: int| 0 <= i < s@.len() implies !#[trigger] occurs_at(
            s@,
            needle@,
            i,
        ) by {}
        untouched_up_to(s@, needle@, with@, s@.len() as int);
        assert(s@.take(s@.len() as int) + replaced(s@.skip(s@.len() as int), needle@, with@)
            =~= s@);
    }
    if s@ == before + needle@ + rest@ && (forall|i: int|
        0 <= i < before.len() ==> !#[trigger] occurs_at(s@, needle@, i)) {
        let k = before.len() as int;
        untouched_up_to(s@, needle@, with@, k);
        let tail = s@.skip(k);
        assert(tail =~= needle@ + rest@);
        assert(tail.subrange(0, needle@.len() as int) =~= needle@);
        assert(tail.skip(needle@.len() as int) =~= rest@);
        assert(occurs_at(tail, needle@, 0));
        assert(s@.take(k) =~= before);
        assert(r@ =~= before + with@ + rest_replaced@);
    }
}

proof fn untouched_up_to(s: Seq<char>, needle: Seq<char>, with: Seq<char>, k: int)
    requires
        0 <= k <= s.len(),
        needle.len() > 0,
        forall|i: int| 0 <= i < k ==> !#[trigger] occurs_at(s, needle, i),
    ensures
        replaced(s, needle, with) == s.take(k) + replaced(s.skip(k), needle, with),
    decreases k,
{
    if k == 0 {
        assert(s.skip(0) =~= s);
        assert(s.take(0) + replaced(s, needle, with) =~= replaced(s, needle, with));
    } else {
        untouched_up_to(s, needle, with, k - 1);
        let t = s.skip(k - 1);
        if occurs_at(t, needle, 0) {
            assert(t.subrange(0, needle.len() as int) =~= s.subrange(k - 1, k - 1 + needle.len()));
            assert(occurs_at(s, needle, k - 1));
        }
        assert(t.skip(1) =~= s.skip(k));
        assert(s.take(k - 1) + (seq![t[0]] + replaced(s.skip(k), needle, with)) =~= s.take(k)
            + replaced(s.skip(k), needle, with));
    }
}

/// A text that is cut keeps its beginning, and all of it where it is short enough.
pub proof fn cutting_keeps_the_beginning(s: &str, n: usize, r: String)
    requires
        call_ensures(take_chars, (s, n), r),
    ensures
        r@.len() == (if s@.len() < n {
            s@.len()
        } else {
            n as nat
        }),
        forall|i: int| 0 <= i < r@.len() ==> #[trigger] r@[i] == s@[i],
{
}

} // verus!
