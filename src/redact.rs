//! Scrubbing of secrets from response bodies before they are shown in errors
//! or logs, and truncation of the result to a byte budget.

use vstd::prelude::*;
use vstd::utf8::{encode_utf8, encode_scalar, char_is_scalar, valid_utf8, decode_utf8};
use crate::json::{JsonValue, parse_json, parsed_json, json_text, to_json_text, redact_json_value, redaction};
use crate::text::{
    occurs_at,
    chars_of, eq_ignore_ascii_case, extend_from, find, find_first, is_whitespace, is_ws,
    same_ignoring_ascii_case, string_of, trim, trimmed,
};

verus! {

/// The text that stands in place of a secret.
pub open spec fn marker() -> Seq<char> {
    "<redacted>"@
}

/// The text appended to a snippet that was cut short.
pub open spec fn truncation_marker() -> Seq<char> {
    "...(truncated)"@
}

/// Object keys whose values are secrets, compared without ASCII case.
pub open spec fn is_secret_key(k: Seq<char>) -> bool {
    same_ignoring_ascii_case(k, "authorization"@) || same_ignoring_ascii_case(k, "cookie"@)
        || same_ignoring_ascii_case(k, "password"@) || same_ignoring_ascii_case(k, "secret"@)
        || same_ignoring_ascii_case(k, "client_secret"@) || same_ignoring_ascii_case(
        k,
        "token"@,
    ) || same_ignoring_ascii_case(k, "access_token"@) || same_ignoring_ascii_case(
        k,
        "refresh_token"@,
    ) || same_ignoring_ascii_case(k, "api_key"@) || same_ignoring_ascii_case(k, "apikey"@)
}

/// No secret is named by the empty key.
pub proof fn lemma_empty_key_not_secret()
    ensures
        !is_secret_key(Seq::empty()),
{
    reveal_strlit("authorization");
    reveal_strlit("cookie");
    reveal_strlit("password");
    reveal_strlit("secret");
    reveal_strlit("client_secret");
    reveal_strlit("token");
    reveal_strlit("access_token");
    reveal_strlit("refresh_token");
    reveal_strlit("api_key");
    reveal_strlit("apikey");
}

pub fn should_redact_key(key: &str) -> (r: bool)
    ensures
        r == is_secret_key(key@),
{
    let k = chars_of(key);
    let k = k.as_slice();
    eq_ignore_ascii_case(k, "authorization") || eq_ignore_ascii_case(k, "cookie")
        || eq_ignore_ascii_case(k, "password") || eq_ignore_ascii_case(k, "secret")
        || eq_ignore_ascii_case(k, "client_secret") || eq_ignore_ascii_case(k, "token")
        || eq_ignore_ascii_case(k, "access_token") || eq_ignore_ascii_case(k, "refresh_token")
        || eq_ignore_ascii_case(k, "api_key") || eq_ignore_ascii_case(k, "apikey")
}

/// A header-style line `name: value` whose trimmed name is `header` (without
/// ASCII case) becomes `name: <redacted>`; any other line gives `None`.
pub open spec fn header_line_redaction(line: Seq<char>, header: Seq<char>) -> Option<Seq<char>> {
    match find_first(line, seq![':']) {
        Some(i) => {
            let name = trim(line.take(i));
            if same_ignoring_ascii_case(name, header) {
                Some(name + ": "@ + marker())
            } else {
                None
            }
        },
        None => None,
    }
}

/// The length of the run of non-whitespace characters of `s` that starts
/// at `k`.
pub open spec fn token_len(s: Seq<char>, k: int) -> nat
    decreases s.len() - k,
{
    if 0 <= k < s.len() && !is_ws(s[k]) {
        1 + token_len(s, k + 1)
    } else {
        0
    }
}

/// `line` from position `i` on, with the token after every occurrence of
/// `prefix` (up to the next whitespace) replaced by the marker. Occurrences
/// are taken from left to right; the search goes on after each token. A
/// prefix followed by whitespace or the end of the line stays as it is.
pub open spec fn prefixed_tokens_from(line: Seq<char>, prefix: Seq<char>, i: int) -> Seq<char>
    decreases (if i <= line.len() {
        line.len() - i
    } else {
        0
    }),
{
    if i < 0 || i >= line.len() || prefix.len() == 0 {
        if 0 <= i <= line.len() {
            line.skip(i)
        } else {
            Seq::empty()
        }
    } else if i + prefix.len() <= line.len() && line.subrange(i, i + prefix.len()) == prefix {
        let n = token_len(line, i + prefix.len());
        if n == 0 {
            prefix + prefixed_tokens_from(line, prefix, i + prefix.len())
        } else {
            prefix + marker() + prefixed_tokens_from(line, prefix, i + prefix.len() + n)
        }
    } else {
        seq![line[i]] + prefixed_tokens_from(line, prefix, i + 1)
    }
}

/// `line` with the token after every occurrence of `prefix` redacted.
pub open spec fn prefixed_token_redaction(line: Seq<char>, prefix: Seq<char>) -> Seq<char> {
    prefixed_tokens_from(line, prefix, 0)
}

/// Inline `Bearer` and then `Basic` credentials of a line, redacted.
pub open spec fn inline_token_redaction(line: Seq<char>) -> Seq<char> {
    prefixed_token_redaction(prefixed_token_redaction(line, "Bearer "@), "Basic "@)
}

/// One line of a text body, redacted.
pub open spec fn line_redaction(line: Seq<char>) -> Seq<char> {
    match header_line_redaction(line, "authorization"@) {
        Some(r) => r,
        None => match header_line_redaction(line, "cookie"@) {
            Some(r) => r,
            None => inline_token_redaction(line),
        },
    }
}

/// A line as `str::lines` yields it: the line feed, and a carriage return
/// before it, removed.
pub open spec fn strip_cr(line: Seq<char>) -> Seq<char> {
    if line.len() > 0 && line.last() == '\r' {
        line.drop_last()
    } else {
        line
    }
}

/// The redaction of the text `t`, where `line` holds the characters of the
/// current line that came before `t`. Each line is redacted; each line feed
/// stays; a carriage return before a line feed is dropped.
pub open spec fn text_redaction_from(t: Seq<char>, line: Seq<char>) -> Seq<char>
    decreases t.len(),
{
    if t.len() == 0 {
        if line.len() == 0 {
            seq![]
        } else {
            line_redaction(line)
        }
    } else if t[0] == '\n' {
        line_redaction(strip_cr(line)) + seq!['\n'] + text_redaction_from(t.drop_first(), seq![])
    } else {
        text_redaction_from(t.drop_first(), line.push(t[0]))
    }
}

/// The line-oriented redaction of a text body.
pub open spec fn text_redaction(t: Seq<char>) -> Seq<char> {
    text_redaction_from(t, seq![])
}

/// A header-style line redacted when its name is `header_name`.
pub fn redact_header_line(line: &[char], header_name: &str) -> (r: Option<Vec<char>>)
    ensures
        match r {
            Some(v) => header_line_redaction(line@, header_name@) == Some(v@),
            None => header_line_redaction(line@, header_name@) is None,
        },
{
    let colon = vec![':'];
    assert(colon@ == seq![':']);
    match find(line, colon.as_slice()) {
        Some(i) => {
            let head = trimmed(&line[0..i]);
            assert(line@.subrange(0, i as int) == line@.take(i as int));
            assert(head@ == trim(line@.take(i as int)));
            assert(find_first(line@, seq![':']) == Some(i as int));
            if eq_ignore_ascii_case(head.as_slice(), header_name) {
                let mut out = head;
                let tail = chars_of(": <redacted>");
                proof {
                    reveal_strlit(": <redacted>");
                    reveal_strlit(": ");
                    reveal_strlit("<redacted>");
                }
                let ghost before = out@;
                out.extend_from_slice(tail.as_slice());
                assert(": <redacted>"@ =~= ": "@ + "<redacted>"@);
                assert(out@ =~= before + ": "@ + marker());
                Some(out)
            } else {
                None
            }
        },
        None => None,
    }
}

proof fn lemma_token_len_bound(s: Seq<char>, k: int)
    requires
        0 <= k <= s.len(),
    ensures
        k + token_len(s, k) <= s.len(),
    decreases s.len() - k,
{
    if k < s.len() && !is_ws(s[k]) {
        lemma_token_len_bound(s, k + 1);
    }
}

/// The token after every `prefix` of a line, redacted.
pub fn redact_prefixed_token(line: &[char], prefix: &str) -> (r: Vec<char>)
    ensures
        r@ == prefixed_token_redaction(line@, prefix@),
{
    let p = chars_of(prefix);
    let n = line.len();
    let pl = p.len();
    if pl == 0 {
        assert(line@.skip(0) =~= line@);
        return slice_all(line);
    }
    let m = chars_of("<redacted>");
    let mut out: Vec<char> = Vec::new();
    let mut i: usize = 0;
    assert(out@ + prefixed_tokens_from(line@, p@, 0) =~= prefixed_token_redaction(line@, prefix@));
    while i < n
        invariant
            n == line@.len(),
            pl == p@.len(),
            pl > 0,
            p@ == prefix@,
            m@ == marker(),
            i <= n,
            out@ + prefixed_tokens_from(line@, p@, i as int) == prefixed_token_redaction(
                line@,
                prefix@,
            ),
        decreases n - i,
    {
        let ghost before = out@;
        if pl <= n - i && occurs_at(line, p.as_slice(), i) {
            let ts = i + pl;
            let mut te = ts;
            while te < n && !is_whitespace(line[te])
                invariant
                    n == line@.len(),
                    ts <= te <= n,
                    token_len(line@, ts as int) == (te - ts) + token_len(line@, te as int),
                decreases n - te,
            {
                te += 1;
            }
            proof {
                lemma_token_len_bound(line@, ts as int);
            }
            out.extend_from_slice(p.as_slice());
            if te > ts {
                out.extend_from_slice(m.as_slice());
            }
            assert(out@ + prefixed_tokens_from(line@, p@, te as int) =~= before
                + prefixed_tokens_from(line@, p@, i as int));
            i = te;
        } else {
            out.push(line[i]);
            assert(out@ + prefixed_tokens_from(line@, p@, i + 1) =~= before + prefixed_tokens_from(
                line@,
                p@,
                i as int,
            ));
            i += 1;
        }
    }
    assert(line@.skip(n as int) =~= Seq::<char>::empty());
    assert(out@ =~= out@ + prefixed_tokens_from(line@, p@, n as int));
    out
}

fn slice_all(s: &[char]) -> (r: Vec<char>)
    ensures
        r@ == s@,
{
    let mut r: Vec<char> = Vec::new();
    extend_from(&mut r, s, 0, s.len());
    assert(s@.subrange(0, s@.len() as int) =~= s@);
    r
}

/// Inline `Bearer` and `Basic` credentials of a line, redacted.
pub fn redact_inline_token(line: &[char]) -> (r: Vec<char>)
    ensures
        r@ == inline_token_redaction(line@),
{
    let once = redact_prefixed_token(line, "Bearer ");
    redact_prefixed_token(once.as_slice(), "Basic ")
}

fn redact_line(line: &[char]) -> (r: Vec<char>)
    ensures
        r@ == line_redaction(line@),
{
    match redact_header_line(line, "authorization") {
        Some(r) => r,
        None => match redact_header_line(line, "cookie") {
            Some(r) => r,
            None => redact_inline_token(line),
        },
    }
}

/// Line-oriented redaction of a body that is not JSON.
pub fn redact_text(text: &str) -> (r: String)
    ensures
        r@ == text_redaction(text@),
{
    let t = chars_of(text);
    let n = t.len();
    let mut out: Vec<char> = Vec::new();
    let mut line: Vec<char> = Vec::new();
    let mut i: usize = 0;
    assert(t@.skip(0) =~= t@);
    assert(out@ + text_redaction_from(t@.skip(0), line@) =~= text_redaction(t@));
    while i < n
        invariant
            n == t@.len(),
            i <= n,
            out@ + text_redaction_from(t@.skip(i as int), line@) == text_redaction(t@),
        decreases n - i,
    {
        let c = t[i];
        assert(t@.skip(i as int).drop_first() =~= t@.skip(i + 1));
        if c == '\n' {
            let ghost l = line@;
            if line.len() > 0 && line[line.len() - 1] == '\r' {
                line.pop();
            }
            assert(line@ == strip_cr(l));
            let red = redact_line(line.as_slice());
            out.extend_from_slice(red.as_slice());
            out.push('\n');
            line = Vec::new();
            assert(out@ + text_redaction_from(t@.skip(i + 1), line@) == text_redaction(t@)) by {
                assert(out@ =~= (out@.drop_last()) .push('\n'));
            }
        } else {
            line.push(c);
        }
        i += 1;
    }
    if line.len() > 0 {
        let red = redact_line(line.as_slice());
        out.extend_from_slice(red.as_slice());
    }
    assert(t@.skip(n as int) =~= seq![]);
    string_of(&out)
}


/// The number of bytes in the UTF-8 encoding of `s`.
pub open spec fn byte_len(s: Seq<char>) -> nat {
    encode_utf8(s).len()
}

/// The largest count of leading characters of `s`, from `k` on, whose
/// encoding fits in `limit` bytes.
pub open spec fn fit_count(s: Seq<char>, limit: int, k: int) -> int
    decreases s.len() - k,
{
    if 0 <= k < s.len() && byte_len(s.take(k + 1)) <= limit {
        fit_count(s, limit, k + 1)
    } else {
        k
    }
}

/// `s` cut to at most `limit` bytes at a character boundary, with the
/// truncation marker appended when anything was cut.
pub open spec fn truncation(s: Seq<char>, limit: int) -> Seq<char> {
    if byte_len(s) <= limit {
        s
    } else {
        s.take(fit_count(s, limit, 0)) + truncation_marker()
    }
}

pub proof fn lemma_encode_concat(a: Seq<char>, b: Seq<char>)
    ensures
        encode_utf8(a + b) == encode_utf8(a) + encode_utf8(b),
    decreases a.len(),
{
    if a.len() == 0 {
        assert(a + b =~= b);
        assert(encode_utf8(a) + encode_utf8(b) =~= encode_utf8(b));
    } else {
        assert((a + b).drop_first() =~= a.drop_first() + b);
        assert((a + b)[0] == a[0]);
        lemma_encode_concat(a.drop_first(), b);
        assert(encode_utf8(a + b) =~= encode_scalar(a[0] as u32) + (encode_utf8(a.drop_first())
            + encode_utf8(b)));
    }
}

proof fn lemma_byte_len_step(s: Seq<char>, k: int)
    requires
        0 <= k < s.len(),
    ensures
        byte_len(s.take(k + 1)) == byte_len(s.take(k)) + encode_scalar(s[k] as u32).len(),
{
    assert(s.take(k + 1) =~= s.take(k) + seq![s[k]]);
    lemma_encode_concat(s.take(k), seq![s[k]]);
    let one = seq![s[k]];
    assert(one.drop_first() =~= Seq::<char>::empty());
    assert(encode_utf8(Seq::<char>::empty()) =~= Seq::<u8>::empty());
    assert(one[0] == s[k]);
    assert(encode_utf8(one) == encode_scalar(s[k] as u32) + encode_utf8(one.drop_first()));
    assert(encode_utf8(one) =~= encode_scalar(s[k] as u32));
}

proof fn lemma_fit_count_bounds(s: Seq<char>, limit: int, k: int)
    requires
        0 <= k <= s.len(),
        byte_len(s.take(k)) <= limit,
    ensures
        k <= fit_count(s, limit, k) <= s.len(),
        byte_len(s.take(fit_count(s, limit, k))) <= limit,
        fit_count(s, limit, k) < s.len() ==> byte_len(s.take(fit_count(s, limit, k) + 1)) > limit,
    decreases s.len() - k,
{
    if k < s.len() && byte_len(s.take(k + 1)) <= limit {
        lemma_fit_count_bounds(s, limit, k + 1);
    }
}

/// Truncation never splits a character and always marks a cut: a text that
/// fits is kept whole; otherwise the result is the longest run of leading
/// whole characters that fits the limit, whose encoding is a prefix of the
/// text's own encoding, followed by the truncation marker.
pub proof fn lemma_truncation_safe(s: Seq<char>, limit: int)
    requires
        limit >= 0,
    ensures
        byte_len(s) <= limit ==> truncation(s, limit) == s,
        byte_len(s) > limit ==> exists|k: int|
            0 <= k < s.len() && #[trigger] truncation(s, limit) == s.take(k) + truncation_marker()
                && byte_len(s.take(k)) <= limit && byte_len(s.take(k + 1)) > limit && encode_utf8(s)
                == encode_utf8(s.take(k)) + encode_utf8(s.skip(k)),
{
    if byte_len(s) > limit {
        assert(s.take(0) =~= Seq::<char>::empty());
        assert(encode_utf8(Seq::<char>::empty()) =~= Seq::<u8>::empty());
        lemma_fit_count_bounds(s, limit, 0);
        let k = fit_count(s, limit, 0);
        assert(s.take(s.len() as int) =~= s);
        assert(k < s.len());
        assert(s =~= s.take(k) + s.skip(k));
        lemma_encode_concat(s.take(k), s.skip(k));
        assert(truncation(s, limit) == s.take(k) + truncation_marker());
    }
}

/// The number of bytes in the UTF-8 encoding of `c`.
pub fn utf8_width(c: char) -> (r: usize)
    ensures
        r == encode_scalar(c as u32).len(),
        1 <= r <= 4,
{
    proof {
        char_is_scalar(c);
    }
    let u = c as u32;
    if u <= 0x7F {
        1
    } else if u <= 0x7FF {
        2
    } else if u <= 0xFFFF {
        3
    } else {
        4
    }
}

/// Cuts `input` to at most `byte_limit` bytes without splitting a character,
/// and marks the cut.
pub fn truncate_utf8_bytes(input: &str, byte_limit: usize) -> (r: String)
    ensures
        r@ == truncation(input@, byte_limit as int),
{
    let len = input.as_bytes().len();
    assert(len == encode_utf8(input@).len());
    if len <= byte_limit {
        return input.to_owned();
    }
    let t = chars_of(input);
    let n = t.len();
    let mut used: usize = 0;
    let mut k: usize = 0;
    assert(t@.take(0) =~= Seq::<char>::empty());
    assert(encode_utf8(Seq::<char>::empty()) =~= Seq::<u8>::empty());
    let mut stop = false;
    while k < n && !stop
        invariant
            n == t@.len(),
            k <= n,
            used <= byte_limit,
            used == byte_len(t@.take(k as int)),
            fit_count(t@, byte_limit as int, 0) == fit_count(t@, byte_limit as int, k as int),
            stop ==> k < n && byte_len(t@.take(k + 1)) > byte_limit,
        decreases n - k + (if stop { 0int } else { 1int }),
    {
        let w = utf8_width(t[k]);
        proof {
            lemma_byte_len_step(t@, k as int);
        }
        if w > byte_limit - used {
            stop = true;
        } else {
            used = used + w;
            k += 1;
        }
    }
    assert(t@.take(n as int) =~= t@);
    assert(fit_count(t@, byte_limit as int, k as int) == k);
    let mut out: Vec<char> = Vec::new();
    extend_from(&mut out, t.as_slice(), 0, k);
    assert(t@.subrange(0, k as int) == t@.take(k as int));
    let mut r = string_of(&out);
    r.append("...(truncated)");
    r
}


/// The text that `String::from_utf8_lossy` reads from a byte string.
pub uninterp spec fn lossy_text(b: Seq<u8>) -> Seq<char>;

/// Relies on `String::from_utf8_lossy`: the text depends on the bytes alone,
/// and valid UTF-8 is read as it stands.
#[verifier::external_body]
fn utf8_lossy(bytes: &[u8]) -> (r: String)
    ensures
        r@ == lossy_text(bytes@),
        valid_utf8(bytes@) ==> r@ == decode_utf8(bytes@),
{
    String::from_utf8_lossy(bytes).into_owned()
}

/// The snippet of a JSON body: secrets redacted, the compact text cut to
/// the byte limit.
pub fn snippet_from_json(value: JsonValue, byte_limit: usize) -> (r: String)
    ensures
        r@ == truncation(json_text(redaction(value@)), byte_limit as int),
{
    let redacted = redact_json_value(value);
    let text = match to_json_text(&redacted) {
        Some(t) => t,
        None => {
            proof {
                assert(false);
            }
            String::new()
        },
    };
    truncate_utf8_bytes(text.as_str(), byte_limit)
}

/// The snippet of a body that is not JSON: secrets redacted line by line,
/// cut to the byte limit.
pub fn snippet_from_text(text: &str, byte_limit: usize) -> (r: String)
    ensures
        r@ == truncation(text_redaction(text@), byte_limit as int),
{
    let redacted = redact_text(text);
    truncate_utf8_bytes(redacted.as_str(), byte_limit)
}

/// A redacted, length-capped excerpt of a response body for diagnostics;
/// nothing for an empty body or a zero limit.
pub fn redact_body_snippet(bytes: &[u8], byte_limit: usize) -> (r: Option<String>)
    ensures
        byte_limit == 0 || bytes@.len() == 0 ==> r is None,
        byte_limit > 0 && bytes@.len() > 0 ==> match parsed_json(bytes@) {
            Some(m) => r matches Some(t) && t@ == truncation(
                json_text(redaction(m)),
                byte_limit as int,
            ),
            None => r matches Some(t) && t@ == truncation(
                text_redaction(lossy_text(bytes@)),
                byte_limit as int,
            ),
        },
{
    if byte_limit == 0 || bytes.len() == 0 {
        return None;
    }
    match parse_json(bytes) {
        Some(value) => Some(snippet_from_json(value, byte_limit)),
        None => {
            let text = utf8_lossy(bytes);
            Some(snippet_from_text(text.as_str(), byte_limit))
        },
    }
}

} // verus!
