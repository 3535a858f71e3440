//! Redaction of credentials from error texts before they are logged.

use crate::text;
use vstd::prelude::*;

verus! {

/// Query parameter names whose values count as credentials.
pub const REDACT_QUERY_KEYS: [&'static str; 14] = [
    "key",
    "apikey",
    "api_key",
    "token",
    "access_token",
    "code",
    "secret",
    "password",
    "signature",
    "auth",
    "authorization",
    "bearer",
    "credential",
    "sk",
];

/// Whether a parameter name is one of the listed ones, without regard to ASCII case.
pub open spec fn credential_name(name: Seq<char>) -> bool {
    exists|i: int|
        0 <= i < 14 && text::lowered((#[trigger] REDACT_QUERY_KEYS@[i])@) == text::lowered(name)
}

/// A character that a parameter name is made of.
pub open spec fn name_char(c: char) -> bool {
    'a' <= c <= 'z' || 'A' <= c <= 'Z' || '0' <= c <= '9' || c == '_'
}

/// A character that ends a parameter value: an ampersand or ASCII white space.
pub open spec fn value_stop(c: char) -> bool {
    c == '&' || c == ' ' || c == '\t' || c == '\n' || c == '\u{C}' || c == '\r'
}

/// Where the name that starts at `i` ends.
pub open spec fn name_end(s: Seq<char>, i: int) -> int
    decreases s.len() - i,
{
    if 0 <= i < s.len() && name_char(s[i]) {
        name_end(s, i + 1)
    } else {
        i
    }
}

/// Where the value that starts at `i` ends.
pub open spec fn value_end(s: Seq<char>, i: int) -> int
    decreases s.len() - i,
{
    if 0 <= i < s.len() && !value_stop(s[i]) {
        value_end(s, i + 1)
    } else {
        i
    }
}

/// A query parameter that carries a credential starts at `i`: a question mark or ampersand, a
/// listed name and an equals sign.
pub open spec fn credential_at(s: Seq<char>, i: int) -> bool {
    &&& 0 <= i < s.len()
    &&& s[i] == '?' || s[i] == '&'
    &&& name_end(s, i + 1) < s.len()
    &&& s[name_end(s, i + 1)] == '='
    &&& credential_name(s.subrange(i + 1, name_end(s, i + 1)))
}

/// The value of the credential parameter that starts at `i`.
pub open spec fn credential_value(s: Seq<char>, i: int) -> Seq<char> {
    let from = name_end(s, i + 1) + 1;
    s.subrange(from, value_end(s, from))
}

proof fn ends_in_range(s: Seq<char>, i: int)
    requires
        0 <= i <= s.len(),
    ensures
        i <= name_end(s, i) <= s.len(),
        i <= value_end(s, i) <= s.len(),
        forall|k: int| i <= k < name_end(s, i) ==> name_char(#[trigger] s[k]),
        name_end(s, i) < s.len() ==> !name_char(s[name_end(s, i)]),
        forall|k: int| i <= k < value_end(s, i) ==> !value_stop(#[trigger] s[k]),
        value_end(s, i) < s.len() ==> value_stop(s[value_end(s, i)]),
    decreases s.len() - i,
{
    if i < s.len() {
        ends_in_range(s, i + 1);
    }
}

/// `s` from position `i` on, with every credential value replaced by three asterisks.
pub open spec fn redacted_from(s: Seq<char>, i: int) -> Seq<char>
    decreases s.len() - i,
    via redacted_from_terminates
{
    if i < 0 || i >= s.len() {
        seq![]
    } else if credential_at(s, i) {
        let j = name_end(s, i + 1);
        s.subrange(i, j) + seq!['=', '*', '*', '*'] + redacted_from(s, value_end(s, j + 1))
    } else {
        seq![s[i]] + redacted_from(s, i + 1)
    }
}

#[via_fn]
proof fn redacted_from_terminates(s: Seq<char>, i: int) {
    if 0 <= i < s.len() && credential_at(s, i) {
        ends_in_range(s, i + 1);
        ends_in_range(s, name_end(s, i + 1) + 1);
    }
}

/// `s` with every credential value replaced by three asterisks.
pub open spec fn redacted(s: Seq<char>) -> Seq<char> {
    redacted_from(s, 0)
}

fn is_name_char(c: char) -> (r: bool)
    ensures
        r == name_char(c),
{
    ('a' <= c && c <= 'z') || ('A' <= c && c <= 'Z') || ('0' <= c && c <= '9') || c == '_'
}

fn is_value_stop(c: char) -> (r: bool)
    ensures
        r == value_stop(c),
{
    c == '&' || c == ' ' || c == '\t' || c == '\n' || c == '\u{C}' || c == '\r'
}

fn is_credential_name(name: &str) -> (r: bool)
    ensures
        r == credential_name(name@),
{
    let n = text::ascii_lowered(name);
    let mut i: usize = 0;
    while i < 14
        invariant
            i <= 14,
            n@ == text::lowered(name@),
            forall|k: int|
                0 <= k < i ==> text::lowered((#[trigger] REDACT_QUERY_KEYS@[k])@) != n@,
        decreases 14 - i,
    {
        let keys = REDACT_QUERY_KEYS;
        let k = text::ascii_lowered(keys[i]);
        if text::same_text(n.as_str(), k.as_str()) {
            assert(text::lowered(REDACT_QUERY_KEYS@[i as int]@) == text::lowered(name@));
            return true;
        }
        i = i + 1;
    }
    false
}

/// Where the name that starts at `i` ends, when a credential parameter starts just before it.
fn find_name_end(v: &Vec<char>, i: usize) -> (j: usize)
    requires
        i <= v@.len(),
    ensures
        j == name_end(v@, i as int),
        i <= j <= v@.len(),
{
    let mut j: usize = i;
    while j < v.len() && is_name_char(v[j])
        invariant
            i <= j <= v@.len(),
            name_end(v@, i as int) == name_end(v@, j as int),
        ensures
            i <= j <= v@.len(),
            name_end(v@, i as int) == j,
        decreases v@.len() - j,
    {
        j = j + 1;
    }
    j
}

fn find_value_end(v: &Vec<char>, i: usize) -> (j: usize)
    requires
        i <= v@.len(),
    ensures
        j == value_end(v@, i as int),
        i <= j <= v@.len(),
{
    let mut j: usize = i;
    while j < v.len() && !is_value_stop(v[j])
        invariant
            i <= j <= v@.len(),
            value_end(v@, i as int) == value_end(v@, j as int),
        ensures
            i <= j <= v@.len(),
            value_end(v@, i as int) == j,
        decreases v@.len() - j,
    {
        j = j + 1;
    }
    j
}

/// The end of the name of the credential parameter that starts at `i`, if one does.
fn credential_end(v: &Vec<char>, i: usize) -> (r: Option<usize>)
    requires
        i < v.len(),
    ensures
        match r {
            Some(j) => credential_at(v@, i as int) && j == name_end(v@, i + 1) && i < j < v@.len(),
            None => !credential_at(v@, i as int),
        },
{
    if v[i] != '?' && v[i] != '&' {
        return None;
    }
    let j: usize = find_name_end(v, i + 1);
    if j < v.len() && v[j] == '=' {
        let name = text::text_between(v, i + 1, j);
        if is_credential_name(name.as_str()) {
            return Some(j);
        }
    }
    None
}

/// Replace query credential values with `***`. The value runs to the next `&`, ASCII white space
/// or the end of the text; a closing bracket does not end it.
pub fn redact_query_credentials(s: &str) -> (r: String)
    ensures
        r@ == redacted(s@),
{
    let v = text::chars_of(s);
    let mut out = String::new();
    let mut i: usize = 0;
    assert(out@ + redacted_from(v@, 0) =~= redacted(s@));
    while i < v.len()
        invariant
            i <= v@.len(),
            v@ == s@,
            out@ + redacted_from(v@, i as int) == redacted(s@),
        decreases v@.len() - i,
    {
        let ghost before = out@;
        match credential_end(&v, i) {
            Some(j) => {
                let name = text::text_between(&v, i, j);
                out.append(name.as_str());
                out.push('=');
                out.push('*');
                out.push('*');
                out.push('*');
                let k: usize = find_value_end(&v, j + 1);
                assert(out@ + redacted_from(v@, k as int) =~= before + (v@.subrange(
                    i as int,
                    j as int,
                ) + seq!['=', '*', '*', '*'] + redacted_from(v@, k as int)));
                i = k;
            },
            None => {
                out.push(v[i]);
                assert(out@ + redacted_from(v@, i + 1) =~= before + (seq![v@[i as int]]
                    + redacted_from(v@, i + 1)));
                i = i + 1;
            },
        }
    }
    assert(out@ + redacted_from(v@, i as int) =~= out@);
    out
}

/// The most characters that a redacted error keeps.
pub const MAX_DETAIL_CHARS: usize = 500;

/// An error text fit for a log: credential values of query parameters masked, then every
/// occurrence of a configured API key, then cut to the limit.
pub open spec fn redacted_detail(s: Seq<char>, api_key: Seq<char>) -> Seq<char> {
    text::shortened(
        if api_key.len() == 0 {
            redacted(s)
        } else {
            text::replaced(redacted(s), api_key, "[REDACTED]"@)
        },
        MAX_DETAIL_CHARS as nat,
    )
}

/// Redact an error text before it reaches a log. An empty API key replaces nothing; cutting comes
/// last, so that it never exposes part of a masked value.
pub fn redact_error_detail(s: &str, api_key: &str) -> (r: String)
    ensures
        r@ == redacted_detail(s@, api_key@),
{
    let masked = redact_query_credentials(s);
    let masked = if api_key.is_empty() {
        masked
    } else {
        text::replace(masked.as_str(), api_key, "[REDACTED]")
    };
    text::take_chars(masked.as_str(), MAX_DETAIL_CHARS)
}

/// Whether a URL carries a credential in its query.
pub fn url_contains_credential_query(url: &str) -> (r: bool)
    ensures
        r == (exists|i: int| credential_at(url@, i)),
{
    let v = text::chars_of(url);
    let mut i: usize = 0;
    while i < v.len()
        invariant
            i <= v@.len(),
            v@ == url@,
            forall|k: int| 0 <= k < i ==> !credential_at(v@, k),
        decreases v@.len() - i,
    {
        if credential_end(&v, i).is_some() {
            return true;
        }
        i = i + 1;
    }
    false
}

/// Looking at a text behind a prefix finds the same names and values, shifted.
proof fn ends_shift(a: Seq<char>, b: Seq<char>, i: int)
    requires
        0 <= i <= b.len(),
    ensures
        name_end(a + b, a.len() + i) == a.len() + name_end(b, i),
        value_end(a + b, a.len() + i) == a.len() + value_end(b, i),
    decreases b.len() - i,
{
    if i < b.len() {
        assert((a + b)[a.len() + i] == b[i]);
        ends_shift(a, b, i + 1);
    }
}

proof fn credentials_shift(a: Seq<char>, b: Seq<char>, i: int)
    requires
        0 <= i < b.len(),
    ensures
        credential_at(a + b, a.len() + i) == credential_at(b, i),
        credential_at(b, i) ==> credential_value(a + b, a.len() + i) == credential_value(b, i),
{
    ends_shift(a, b, i + 1);
    ends_in_range(b, i + 1);
    let j = name_end(b, i + 1);
    assert((a + b)[a.len() + i] == b[i]);
    assert((a + b).subrange(a.len() + i + 1, a.len() + j) =~= b.subrange(i + 1, j));
    if j < b.len() {
        assert((a + b)[a.len() + j] == b[j]);
        ends_shift(a, b, j + 1);
        ends_in_range(b, j + 1);
        assert((a + b).subrange(a.len() + j + 1, a.len() + value_end(b, j + 1)) =~= b.subrange(
            j + 1,
            value_end(b, j + 1),
        ));
    }
}

/// Redaction copies a run of name characters and the character behind it.
proof fn redaction_keeps_names(s: Seq<char>, i: int)
    requires
        0 <= i <= s.len(),
    ensures
        ({
            let o = redacted_from(s, i);
            let j = name_end(s, i);
            &&& name_end(o, 0) == j - i
            &&& j - i <= o.len()
            &&& o.take(j - i) == s.subrange(i, j)
            &&& j < s.len() ==> o.len() > j - i && o[j - i] == s[j]
            &&& j == s.len() ==> o.len() == j - i
            &&& i < s.len() ==> o.len() > 0 && o[0] == s[i]
        }),
    decreases s.len() - i,
{
    let o = redacted_from(s, i);
    let j = name_end(s, i);
    ends_in_range(s, i);
    if i < s.len() {
        ends_in_range(s, i + 1);
        if credential_at(s, i) {
            let k = name_end(s, i + 1);
            assert(!name_char(s[i]));
            assert(o[0] == s.subrange(i, k)[0]);
            assert(o.take(0) =~= s.subrange(i, i));
        } else {
            let rest = redacted_from(s, i + 1);
            assert(o == seq![s[i]] + rest);
            redaction_keeps_names(s, i + 1);
            if name_char(s[i]) {
                ends_shift(seq![s[i]], rest, 0);
                assert(name_end(o, 0) == name_end(o, 1));
                assert(o.take(j - i) =~= s.subrange(i, j)) by {
                    assert forall|k: int| 0 <= k < j - i implies o.take(j - i)[k] == s.subrange(
                        i,
                        j,
                    )[k] by {
                        if k > 0 {
                            assert(rest.take(j - i - 1)[k - 1] == s.subrange(i + 1, j)[k - 1]);
                        }
                    }
                }
            } else {
                assert(o.take(0) =~= s.subrange(i, i));
            }
        }
    } else {
        assert(o.take(0) =~= s.subrange(i, i));
    }
}

/// No credential of the text shows more than the mask.
pub open spec fn masked_throughout(s: Seq<char>) -> bool {
    forall|i: int| #[trigger] credential_at(s, i) ==> credential_value(s, i) == seq!['*', '*', '*']
}

proof fn redaction_from_masks(s: Seq<char>, i: int)
    requires
        0 <= i <= s.len(),
    ensures
        masked_throughout(redacted_from(s, i)),
    decreases s.len() - i,
{
    let o = redacted_from(s, i);
    if i < s.len() {
        ends_in_range(s, i + 1);
        if credential_at(s, i) {
            let j = name_end(s, i + 1);
            ends_in_range(s, j + 1);
            let k = value_end(s, j + 1);
            let rest = redacted_from(s, k);
            let name = s.subrange(i, j);
            let head = name + seq!['=', '*', '*', '*'];
            assert(o == head + rest);
            redaction_from_masks(s, k);
            redaction_keeps_names(s, k);
            assert forall|p: int| #[trigger] credential_at(o, p) implies credential_value(o, p)
                == seq!['*', '*', '*'] by {
                if p >= head.len() {
                    credentials_shift(head, rest, p - head.len());
                } else if p > 0 {
                    assert(o[p] == head[p]);
                    if p < name.len() {
                        assert(name[p] == s[i + p]);
                        assert(name_char(s[i + p]));
                    }
                } else {
                    let n = name.len() as int;
                    assert(forall|q: int| 0 <= q < head.len() ==> o[q] == head[q]);
                    assert(forall|q: int| 1 <= q < n ==> name_char(#[trigger] o[q])) by {
                        assert(forall|q: int| 1 <= q < n ==> #[trigger] o[q] == s[i + q]);
                    }
                    run_of_name_chars(o, 1, n);
                    assert(o[n] == '=');
                    assert(name_end(o, 1) == n);
                    assert(o[n + 1] == '*' && o[n + 2] == '*' && o[n + 3] == '*');
                    assert(k < s.len() ==> o[n + 4] == rest[0] && value_stop(o[n + 4]));
                    reveal_with_fuel(value_end, 4);
                    assert(value_end(o, n + 1) == n + 4);
                    assert(o.subrange(n + 1, n + 4) =~= seq!['*', '*', '*']);
                }
            }
        } else {
            let rest = redacted_from(s, i + 1);
            let head = seq![s[i]];
            assert(o == head + rest);
            redaction_from_masks(s, i + 1);
            redaction_keeps_names(s, i + 1);
            assert forall|p: int| #[trigger] credential_at(o, p) implies credential_value(o, p)
                == seq!['*', '*', '*'] by {
                if p >= 1 {
                    credentials_shift(head, rest, p - 1);
                } else {
                    let j = name_end(s, i + 1);
                    ends_shift(head, rest, 0);
                    assert(name_end(o, 1) == j - i);
                    assert(o.subrange(1, j - i) =~= s.subrange(i + 1, j)) by {
                        assert(o.subrange(1, j - i) =~= rest.take(j - i - 1));
                    }
                    assert(o[j - i] == rest[j - i - 1]);
                    assert(credential_at(s, i));
                }
            }
        }
    }
}

proof fn run_of_name_chars(s: Seq<char>, i: int, j: int)
    requires
        0 <= i <= j <= s.len(),
        forall|q: int| i <= q < j ==> name_char(#[trigger] s[q]),
        j < s.len() ==> !name_char(s[j]),
    ensures
        name_end(s, i) == j,
    decreases j - i,
{
    if i < j {
        run_of_name_chars(s, i + 1, j);
    }
}

/// After redaction no query parameter with a listed name shows a value: whatever the text was,
/// each such parameter of the result reads three asterisks.
pub proof fn redaction_masks_every_credential(s: Seq<char>)
    ensures
        masked_throughout(redacted(s)),
{
    redaction_from_masks(s, 0);
}

proof fn plain_text_stays(s: Seq<char>, i: int)
    requires
        0 <= i <= s.len(),
        forall|k: int| !credential_at(s, k),
    ensures
        redacted_from(s, i) == s.skip(i),
    decreases s.len() - i,
{
    if i < s.len() {
        plain_text_stays(s, i + 1);
        assert(seq![s[i]] + s.skip(i + 1) =~= s.skip(i));
    } else {
        assert(s.skip(i) =~= seq![]);
    }
}

/// A text without credential parameters is left as it is.
pub proof fn redaction_keeps_other_text(s: Seq<char>)
    requires
        forall|k: int| !credential_at(s, k),
    ensures
        redacted(s) == s,
{
    plain_text_stays(s, 0);
    assert(s.skip(0) =~= s);
}

/// The names of parameters that carry credentials, whatever the case of their letters.
pub proof fn credential_names_are_listed(name: Seq<char>, other: Seq<char>)
    ensures
        credential_name("key"@) && credential_name("apikey"@) && credential_name("api_key"@),
        credential_name("token"@) && credential_name("access_token"@) && credential_name("code"@),
        credential_name("secret"@) && credential_name("password"@) && credential_name(
            "signature"@,
        ),
        credential_name("auth"@) && credential_name("authorization"@) && credential_name(
            "bearer"@,
        ),
        credential_name("credential"@) && credential_name("sk"@),
        text::lowered(name) == text::lowered(other) ==> credential_name(name) == credential_name(
            other,
        ),
        credential_name(name) ==> exists|k: int|
            0 <= k < 14 && text::lowered(name) == text::lowered(
                (#[trigger] REDACT_QUERY_KEYS@[k])@,
            ),
{
    let keys = REDACT_QUERY_KEYS;
    assert(keys@[0]@ == "key"@ && keys@[1]@ == "apikey"@ && keys@[2]@ == "api_key"@);
    assert(keys@[3]@ == "token"@ && keys@[4]@ == "access_token"@ && keys@[5]@ == "code"@);
    assert(keys@[6]@ == "secret"@ && keys@[7]@ == "password"@ && keys@[8]@ == "signature"@);
    assert(keys@[9]@ == "auth"@ && keys@[10]@ == "authorization"@ && keys@[11]@ == "bearer"@);
    assert(keys@[12]@ == "credential"@ && keys@[13]@ == "sk"@);
}

proof fn run_of_value_chars(s: Seq<char>, i: int, j: int)
    requires
        0 <= i <= j <= s.len(),
        forall|q: int| i <= q < j ==> !value_stop(#[trigger] s[q]),
        j < s.len() ==> value_stop(s[j]),
    ensures
        value_end(s, i) == j,
    decreases j - i,
{
    if i < j {
        run_of_value_chars(s, i + 1, j);
    }
}

proof fn redaction_shifts(a: Seq<char>, b: Seq<char>, i: int)
    requires
        0 <= i <= b.len(),
    ensures
        redacted_from(a + b, a.len() + i) == redacted_from(b, i),
    decreases b.len() - i,
{
    if i < b.len() {
        credentials_shift(a, b, i);
        ends_in_range(b, i + 1);
        if credential_at(b, i) {
            let j = name_end(b, i + 1);
            ends_shift(a, b, i + 1);
            ends_shift(a, b, j + 1);
            ends_in_range(b, j + 1);
            redaction_shifts(a, b, value_end(b, j + 1));
            assert((a + b).subrange(a.len() + i, a.len() + j) =~= b.subrange(i, j));
        } else {
            redaction_shifts(a, b, i + 1);
            assert((a + b)[a.len() + i] == b[i]);
        }
    }
}

proof fn redaction_passes_plain_text(s: Seq<char>, i: int, k: int)
    requires
        0 <= i <= k <= s.len(),
        forall|q: int| i <= q < k ==> #[trigger] s[q] != '?' && s[q] != '&',
    ensures
        redacted_from(s, i) == s.subrange(i, k) + redacted_from(s, k),
    decreases k - i,
{
    if i < k {
        assert(s[i] != '?' && s[i] != '&');
        redaction_passes_plain_text(s, i + 1, k);
        assert(seq![s[i]] + (s.subrange(i + 1, k) + redacted_from(s, k)) =~= s.subrange(i, k)
            + redacted_from(s, k));
    } else {
        assert(s.subrange(i, k) + redacted_from(s, k) =~= redacted_from(s, k));
    }
}

/// The value of a parameter that carries a credential is masked: it runs from the equals sign to the
/// next ampersand or space, or to the end. What stands before it stays, and what follows is masked
/// in the same way.
pub proof fn credential_values_are_masked(
    s: &str,
    r: String,
    before: Seq<char>,
    lead: char,
    name: Seq<char>,
    value: Seq<char>,
    rest: &str,
    rest_masked: String,
)
    requires
        call_ensures(redact_query_credentials, (s,), r),
        call_ensures(redact_query_credentials, (rest,), rest_masked),
        s@ == before + seq![lead] + name + seq!['='] + value + rest@,
        forall|i: int| 0 <= i < before.len() ==> #[trigger] before[i] != '?' && before[i] != '&',
        lead == '?' || lead == '&',
        credential_name(name),
        forall|i: int|
            0 <= i < name.len() ==> 'a' <= #[trigger] name[i] <= 'z' || 'A' <= name[i] <= 'Z'
                || '0' <= name[i] <= '9' || name[i] == '_',
        forall|i: int|
            0 <= i < value.len() ==> #[trigger] value[i] != '&' && value[i] != ' ' && value[i]
                != '\t' && value[i] != '\n' && value[i] != '\u{C}' && value[i] != '\r',
        rest@.len() == 0 || rest@[0] == '&' || rest@[0] == ' ' || rest@[0] == '\t' || rest@[0]
            == '\n' || rest@[0] == '\u{C}' || rest@[0] == '\r',
    ensures
        r@ == before + seq![lead] + name + seq!['=', '*', '*', '*'] + rest_masked@,
{
    let t = s@;
    let k = before.len() as int;
    let j = k + 1 + name.len();
    let e = j + 1 + value.len();
    let head = before + seq![lead] + name + seq!['='] + value;
    assert(t =~= head + rest@);
    assert forall|q: int| 0 <= q < k implies #[trigger] t[q] != '?' && t[q] != '&' by {
        assert(t[q] == before[q]);
    }
    redaction_passes_plain_text(t, 0, k);
    assert(t.subrange(0, k) =~= before);
    assert(t[k] == lead);
    assert forall|q: int| k + 1 <= q < j implies name_char(#[trigger] t[q]) by {
        assert(t[q] == name[q - k - 1]);
    }
    assert(t[j] == '=');
    run_of_name_chars(t, k + 1, j);
    assert(t.subrange(k + 1, j) =~= name);
    assert(credential_at(t, k));
    assert forall|q: int| j + 1 <= q < e implies !value_stop(#[trigger] t[q]) by {
        assert(t[q] == value[q - j - 1]);
    }
    if e < t.len() {
        assert(t[e] == rest@[0]);
    }
    run_of_value_chars(t, j + 1, e);
    redaction_shifts(head, rest@, 0);
    assert(head.len() == e);
    assert(t.subrange(k, j) =~= seq![lead] + name);
    assert(r@ =~= before + seq![lead] + name + seq!['=', '*', '*', '*'] + rest_masked@);
}

/// An address carries a credential if a question mark or ampersand, a listed name and an equals sign
/// follow each other in it; without one, redaction leaves a text as it is.
pub proof fn credentials_are_recognised(
    s: &str,
    r: bool,
    masked: String,
    before: Seq<char>,
    lead: char,
    name: Seq<char>,
    rest: Seq<char>,
)
    requires
        call_ensures(url_contains_credential_query, (s,), r),
        call_ensures(redact_query_credentials, (s,), masked),
    ensures
        !r ==> masked@ == s@,
        s@ == before + seq![lead] + name + seq!['='] + rest && (lead == '?' || lead == '&')
            && credential_name(name) && (forall|i: int|
            0 <= i < name.len() ==> 'a' <= #[trigger] name[i] <= 'z' || 'A' <= name[i] <= 'Z'
                || '0' <= name[i] <= '9' || name[i] == '_') ==> r,
        r ==> exists|i: int, j: int|
            0 <= i < j < s@.len() && (s@[i] == '?' || s@[i] == '&') && s@[j] == '='
                && credential_name(#[trigger] s@.subrange(i + 1, j)),
{
    let t = s@;
    if !r {
        redaction_keeps_other_text(t);
    } else {
        let i = choose|i: int| credential_at(t, i);
        ends_in_range(t, i + 1);
        let j = name_end(t, i + 1);
        assert(credential_name(t.subrange(i + 1, j)));
    }
    if t == before + seq![lead] + name + seq!['='] + rest && (lead == '?' || lead == '&')
        && credential_name(name) && (forall|i: int|
        0 <= i < name.len() ==> 'a' <= #[trigger] name[i] <= 'z' || 'A' <= name[i] <= 'Z' || '0'
            <= name[i] <= '9' || name[i] == '_') {
        let k = before.len() as int;
        let j = k + 1 + name.len();
        assert(t[k] == lead);
        assert forall|q: int| k + 1 <= q < j implies name_char(#[trigger] t[q]) by {
            assert(t[q] == name[q - k - 1]);
        }
        assert(t[j] == '=');
        run_of_name_chars(t, k + 1, j);
        assert(t.subrange(k + 1, j) =~= name);
        assert(credential_at(t, k));
    }
}

/// An error text is fit for a log once its credential values are masked, the configured key is
/// replaced wherever it occurs, and it is cut to five hundred characters, in this order.
pub proof fn errors_are_masked_then_cut(
    s: &str,
    api_key: &str,
    r: String,
    mask: &str,
    once: String,
    masked: &str,
    twice: String,
)
    requires
        call_ensures(redact_error_detail, (s, api_key), r),
        call_ensures(redact_query_credentials, (s,), once),
        masked@ == once@,
        mask@ == "[REDACTED]"@,
        api_key@.len() > 0 ==> call_ensures(text::replace, (masked, api_key, mask), twice),
        api_key@.len() == 0 ==> twice@ == once@,
    ensures
        r@ == (if twice@.len() <= 500 {
            twice@
        } else {
            twice@.take(500)
        }),
{
}

proof fn no_key_in_the_mask(key: Seq<char>, with: Seq<char>, out: Seq<char>, p: int)
    requires
        key.len() > 0,
        forall|a: int, b: int|
            0 <= a < key.len() && 0 <= b < with.len() ==> #[trigger] key[a] != #[trigger] with[b],
        0 <= p < with.len(),
        with.len() <= out.len(),
        forall|b: int| 0 <= b < with.len() ==> #[trigger] out[b] == with[b],
    ensures
        !text::occurs_at(out, key, p),
{
    if text::occurs_at(out, key, p) {
        assert(out.subrange(p, p + key.len())[0] == key[0]);
        assert(out[p] == with[p]);
    }
}

/// What a replaced text begins with, if it shares nothing with the mask, the text began with.
proof fn beginnings_are_copied(t: Seq<char>, key: Seq<char>, with: Seq<char>, x: Seq<char>)
    requires
        key.len() > 0,
        with.len() > 0,
        forall|a: int, b: int|
            0 <= a < x.len() && 0 <= b < with.len() ==> #[trigger] x[a] != #[trigger] with[b],
        x.len() <= text::replaced(t, key, with).len(),
        text::replaced(t, key, with).take(x.len() as int) == x,
    ensures
        x.len() <= t.len(),
        t.take(x.len() as int) == x,
    decreases x.len(),
{
    let o = text::replaced(t, key, with);
    if x.len() > 0 {
        assert(o[0] == o.take(x.len() as int)[0]);
        assert(t.len() > 0);
        if text::occurs_at(t, key, 0) {
            assert(o[0] == with[0]);
            assert(x[0] != with[0]);
        }
        let rest = text::replaced(t.skip(1), key, with);
        assert(o == seq![t[0]] + rest);
        let y = x.skip(1);
        assert(rest.take(y.len() as int) =~= y) by {
            assert forall|i: int| 0 <= i < y.len() implies rest[i] == y[i] by {
                assert(o[i + 1] == rest[i]);
                assert(o.take(x.len() as int)[i + 1] == x[i + 1]);
            }
        }
        assert forall|a: int, b: int| 0 <= a < y.len() && 0 <= b < with.len() implies #[trigger] y[a]
            != #[trigger] with[b] by {
            assert(x[a + 1] != with[b]);
        }
        beginnings_are_copied(t.skip(1), key, with, y);
        assert(t.take(x.len() as int) =~= x) by {
            assert forall|i: int| 0 <= i < x.len() implies t[i] == x[i] by {
                if i > 0 {
                    assert(t.skip(1).take(y.len() as int)[i - 1] == y[i - 1]);
                }
            }
        }
    } else {
        assert(t.take(0) =~= x);
    }
}

proof fn replacing_leaves_none(t: Seq<char>, key: Seq<char>, with: Seq<char>, p: int)
    requires
        key.len() > 0,
        with.len() > 0,
        forall|a: int, b: int|
            0 <= a < key.len() && 0 <= b < with.len() ==> #[trigger] key[a] != #[trigger] with[b],
    ensures
        !text::occurs_at(text::replaced(t, key, with), key, p),
    decreases t.len(),
{
    let o = text::replaced(t, key, with);
    if t.len() > 0 && text::occurs_at(o, key, p) {
        if text::occurs_at(t, key, 0) {
            let rest = text::replaced(t.skip(key.len() as int), key, with);
            assert(o == with + rest);
            if p < with.len() {
                no_key_in_the_mask(key, with, o, p);
            } else {
                assert(rest.subrange(p - with.len(), p - with.len() + key.len()) =~= o.subrange(
                    p,
                    p + key.len(),
                ));
                replacing_leaves_none(t.skip(key.len() as int), key, with, p - with.len());
            }
        } else {
            let rest = text::replaced(t.skip(1), key, with);
            assert(o == seq![t[0]] + rest);
            if p > 0 {
                assert(rest.subrange(p - 1, p - 1 + key.len()) =~= o.subrange(p, p + key.len()));
                replacing_leaves_none(t.skip(1), key, with, p - 1);
            } else {
                assert(o.take(key.len() as int) =~= o.subrange(0, key.len() as int));
                beginnings_are_copied(t, key, with, key);
                assert(t.subrange(0, key.len() as int) =~= t.take(key.len() as int));
            }
        }
    }
}

/// The configured key does not show in an error text that goes to a log. (A key that shares a
/// character with the word that stands for it is another matter.)
pub proof fn the_key_does_not_show(s: &str, api_key: &str, r: String)
    requires
        call_ensures(redact_error_detail, (s, api_key), r),
        api_key@.len() > 0,
        forall|a: int, b: int|
            0 <= a < api_key@.len() && 0 <= b < "[REDACTED]"@.len() ==> #[trigger] api_key@[a]
                != #[trigger] "[REDACTED]"@[b],
    ensures
        !text::occurs_in(r@, api_key@),
{
    reveal_strlit("[REDACTED]");
    let whole = text::replaced(redacted(s@), api_key@, "[REDACTED]"@);
    assert forall|p: int| !#[trigger] text::occurs_at(r@, api_key@, p) by {
        replacing_leaves_none(redacted(s@), api_key@, "[REDACTED]"@, p);
        if text::occurs_at(r@, api_key@, p) {
            assert(whole.subrange(p, p + api_key@.len()) =~= r@.subrange(p, p + api_key@.len()));
        }
    }
}

} // verus!
