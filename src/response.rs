//! What a response's headers and body tell about a failed call.

use vstd::prelude::*;
use crate::headers::{HeaderList, first_value};
use crate::json::{JsonModel, JsonValue, key_at, parse_json, parsed_json};
use crate::retry::{Delay, NANOS_PER_SEC};
use crate::text::{same_text, string_of, trim, trimmed};
use crate::json::key_views;

verus! {

/// A successful response: status, headers and body.
#[derive(Clone, Debug)]
pub struct ResponseBytes {
    pub status: u16,
    pub headers: HeaderList,
    pub body: Vec<u8>,
}

impl ResponseBytes {
    pub fn new(status: u16, headers: HeaderList, body: Vec<u8>) -> (r: ResponseBytes)
        ensures
            r.status == status,
            r.headers == headers,
            r.body == body,
    {
        ResponseBytes { status, headers, body }
    }

    pub fn status(&self) -> (r: u16)
        ensures
            r == self.status,
    {
        self.status
    }

    pub fn headers(&self) -> (r: &HeaderList)
        ensures
            r == &self.headers,
    {
        &self.headers
    }

    pub fn body(&self) -> (r: &[u8])
        ensures
            r@ == self.body@,
    {
        self.body.as_slice()
    }

    pub fn into_body(self) -> (r: Vec<u8>)
        ensures
            r == self.body,
    {
        self.body
    }
}

/// A byte that a header value read as text may hold: visible ASCII or tab.
pub open spec fn visible_byte(b: u8) -> bool {
    (32 <= b && b < 127) || b == 9
}

/// The characters of ASCII bytes.
pub open spec fn ascii_chars(v: Seq<u8>) -> Seq<char> {
    v.map_values(|b: u8| b as char)
}

/// A header value read as text and trimmed, when all of it is visible ASCII.
pub open spec fn header_text(v: Seq<u8>) -> Option<Seq<char>> {
    if forall|i: int| 0 <= i < v.len() ==> visible_byte(#[trigger] v[i]) {
        Some(trim(ascii_chars(v)))
    } else {
        None
    }
}

/// The trimmed text of the first value of header `name`, when it is text
/// and not empty.
pub open spec fn nonempty_header_text(h: Seq<(Seq<char>, Seq<u8>)>, name: Seq<char>) -> Option<
    Seq<char>,
> {
    match first_value(h, name) {
        Some(v) => match header_text(v) {
            Some(t) => if t.len() > 0 {
                Some(t)
            } else {
                None
            },
            None => None,
        },
        None => None,
    }
}

/// The request id a response carries: the first of `x-request-id`,
/// `x-grafana-request-id` and `x-amzn-trace-id` with a non-empty text value.
pub open spec fn request_id_in(h: Seq<(Seq<char>, Seq<u8>)>) -> Option<Seq<char>> {
    match nonempty_header_text(h, "x-request-id"@) {
        Some(t) => Some(t),
        None => match nonempty_header_text(h, "x-grafana-request-id"@) {
            Some(t) => Some(t),
            None => nonempty_header_text(h, "x-amzn-trace-id"@),
        },
    }
}

/// The trimmed text of a header value, when all of it is visible ASCII.
pub fn header_value_text(v: &Vec<u8>) -> (r: Option<Vec<char>>)
    ensures
        match r {
            Some(t) => header_text(v@) == Some(t@),
            None => header_text(v@) is None,
        },
{
    let mut chars: Vec<char> = Vec::new();
    for i in 0..v.len()
        invariant
            chars@ == ascii_chars(v@.take(i as int)),
            forall|j: int| 0 <= j < i ==> visible_byte(#[trigger] v@[j]),
    {
        let b = v[i];
        if !((32 <= b && b < 127) || b == 9) {
            return None;
        }
        chars.push(b as char);
        assert(ascii_chars(v@.take(i + 1)) =~= ascii_chars(v@.take(i as int)).push(b as char));
    }
    assert(v@.take(v@.len() as int) =~= v@);
    Some(trimmed(chars.as_slice()))
}

fn nonempty_text(headers: &HeaderList, name: &str) -> (r: Option<String>)
    ensures
        match r {
            Some(t) => nonempty_header_text(headers@, name@) == Some(t@),
            None => nonempty_header_text(headers@, name@) is None,
        },
{
    match headers.get(name) {
        Some(v) => match header_value_text(v) {
            Some(t) => {
                if t.len() > 0 {
                    Some(string_of(&t))
                } else {
                    None
                }
            },
            None => None,
        },
        None => None,
    }
}

/// The request id that a response carries.
pub fn extract_request_id(headers: &HeaderList) -> (r: Option<String>)
    ensures
        match r {
            Some(t) => request_id_in(headers@) == Some(t@),
            None => request_id_in(headers@) is None,
        },
{
    match nonempty_text(headers, "x-request-id") {
        Some(t) => Some(t),
        None => match nonempty_text(headers, "x-grafana-request-id") {
            Some(t) => Some(t),
            None => nonempty_text(headers, "x-amzn-trace-id"),
        },
    }
}


/// The value of the first member named `name`, looking from position `i`.
pub open spec fn member_from(
    keys: Seq<Seq<char>>,
    values: Seq<JsonModel>,
    name: Seq<char>,
    i: int,
) -> Option<JsonModel>
    decreases values.len() - i,
{
    if i < 0 || i >= values.len() {
        None
    } else if key_at(keys, i) == name {
        Some(values[i])
    } else {
        member_from(keys, values, name, i + 1)
    }
}

/// The text of a member that holds a string.
pub open spec fn string_member(f: Option<JsonModel>) -> Option<Seq<char>> {
    match f {
        Some(JsonModel::Str(s)) => Some(s),
        _ => None,
    }
}

/// The human message of an error body, a JSON object: its `message` member
/// when that is a string, else its `error` member when that is a string.
pub open spec fn message_in(doc: Option<JsonModel>) -> Option<Seq<char>> {
    match doc {
        Some(JsonModel::Object { keys, values }) => match string_member(
            member_from(keys, values, "message"@, 0),
        ) {
            Some(m) => Some(m),
            None => string_member(member_from(keys, values, "error"@, 0)),
        },
        _ => None,
    }
}

fn member<'a>(doc: &'a JsonValue, name: &str) -> (r: Option<&'a JsonValue>)
    requires
        doc is Object,
    ensures
        match r {
            Some(v) => member_from(doc@->keys, doc@->values, name@, 0) == Some(v@),
            None => member_from(doc@->keys, doc@->values, name@, 0) is None,
        },
{
    match doc {
        JsonValue::Object { keys, values } => {
            let ghost ks = doc@->keys;
            let ghost vs = doc@->values;
            assert(ks == key_views(keys@));
            assert(vs.len() == values@.len());
            let n = values.len();
            let mut i: usize = 0;
            while i < n
                invariant
                    n == values@.len(),
                    ks == doc@->keys,
                    vs == doc@->values,
                    ks == key_views(keys@),
                    vs.len() == n,
                    forall|j: int| 0 <= j < n ==> #[trigger] vs[j] == values@[j]@,
                    i <= n,
                    member_from(ks, vs, name@, 0) == member_from(ks, vs, name@, i as int),
                decreases n - i,
            {
                let found = if i < keys.len() {
                    same_text(keys[i].as_str(), name)
                } else {
                    name.unicode_len() == 0
                };
                assert(key_at(ks, i as int) == if i < keys.len() {
                    keys@[i as int]@
                } else {
                    Seq::<char>::empty()
                });
                if found {
                    assert(key_at(ks, i as int) =~= name@);
                    assert(vs[i as int] == values@[i as int]@);
                    assert(member_from(ks, vs, name@, i as int) == Some(vs[i as int]));
                    return Some(&values[i]);
                }
                i += 1;
            }
            None
        },
        _ => None,
    }
}


fn string_member_of(f: Option<&JsonValue>) -> (r: Option<String>)
    ensures
        match r {
            Some(s) => string_member(
                match f {
                    Some(v) => Some(v@),
                    None => None,
                },
            ) == Some(s@),
            None => string_member(
                match f {
                    Some(v) => Some(v@),
                    None => None,
                },
            ) is None,
        },
{
    match f {
        Some(JsonValue::String(s)) => Some(s.clone()),
        _ => None,
    }
}

/// The human message of an error body: its `message` member, falling back
/// to its `error` member.
pub fn extract_message(bytes: &[u8]) -> (r: Option<String>)
    ensures
        match r {
            Some(t) => message_in(parsed_json(bytes@)) == Some(t@),
            None => message_in(parsed_json(bytes@)) is None,
        },
{
    let doc = match parse_json(bytes) {
        Some(d) => d,
        None => return None,
    };
    match doc {
        JsonValue::Object { .. } => {},
        _ => return None,
    }
    match string_member_of(member(&doc, "message")) {
        Some(m) => Some(m),
        None => string_member_of(member(&doc, "error")),
    }
}

/// Decimal digits as a number.
pub open spec fn digits_value(d: Seq<char>) -> int
    decreases d.len(),
{
    if d.len() == 0 {
        0
    } else {
        digits_value(d.drop_last()) * 10 + (d.last() as int - '0' as int)
    }
}

/// `str::parse::<u64>`: an optional `+`, then one or more decimal digits
/// whose value fits in a `u64`.
pub open spec fn decimal_u64(t: Seq<char>) -> Option<u64> {
    let d = unsigned_digits(t);
    if d.len() > 0 && all_digits(d) && digits_value(d) <= u64::MAX {
        Some(digits_value(d) as u64)
    } else {
        None
    }
}

/// `t` without a leading `+`.
pub open spec fn unsigned_digits(t: Seq<char>) -> Seq<char> {
    if t.len() > 0 && t[0] == '+' {
        t.drop_first()
    } else {
        t
    }
}

/// Every character of `d` is a decimal digit.
pub open spec fn all_digits(d: Seq<char>) -> bool {
    forall|i: int| 0 <= i < d.len() ==> '0' <= #[trigger] d[i] <= '9'
}

proof fn lemma_digits_value_nonneg(d: Seq<char>)
    requires
        forall|i: int| 0 <= i < d.len() ==> '0' <= #[trigger] d[i] <= '9',
    ensures
        digits_value(d) >= 0,
    decreases d.len(),
{
    if d.len() > 0 {
        lemma_digits_value_nonneg(d.drop_last());
    }
}

proof fn lemma_digits_value_grows(d: Seq<char>, k: int)
    requires
        forall|i: int| 0 <= i < d.len() ==> '0' <= #[trigger] d[i] <= '9',
        0 <= k <= d.len(),
    ensures
        digits_value(d.take(k)) <= digits_value(d),
    decreases d.len() - k,
{
    if k < d.len() {
        lemma_digits_value_grows(d, k + 1);
        assert(d.take(k + 1).drop_last() =~= d.take(k));
        lemma_digits_value_nonneg(d.take(k));
    } else {
        assert(d.take(k) =~= d);
    }
}

/// Reads a decimal `u64` as `str::parse` does.
pub fn parse_u64(t: &[char]) -> (r: Option<u64>)
    ensures
        r == decimal_u64(t@),
{
    let n = t.len();
    let start: usize = if n > 0 && t[0] == '+' { 1 } else { 0 };
    let ghost d = unsigned_digits(t@);
    assert(d =~= t@.subrange(start as int, n as int));
    if start == n {
        return None;
    }
    let mut value: u64 = 0;
    let mut i: usize = start;
    while i < n
        invariant
            n == t@.len(),
            start <= i <= n,
            d == t@.subrange(start as int, n as int),
            d == unsigned_digits(t@),
            forall|j: int| start <= j < i ==> '0' <= #[trigger] t@[j] <= '9',
            value == digits_value(d.take(i - start)),
        decreases n - i,
    {
        let c = t[i];
        assert(d.take(i + 1 - start).drop_last() =~= d.take(i - start));
        assert(d.take(i + 1 - start).last() == c);
        if !('0' <= c && c <= '9') {
            assert(!all_digits(d)) by {
                assert(d[i - start] == c);
            }
            assert(decimal_u64(t@) is None);
            return None;
        }
        let digit = (c as u32 - '0' as u32) as u64;
        if value > (u64::MAX - digit) / 10 {
            proof {
                assert(forall|j: int| 0 <= j < i + 1 - start ==> '0' <= #[trigger] d.take(
                    i + 1 - start,
                )[j] <= '9');
                assert(value * 10 + digit > u64::MAX) by (nonlinear_arith)
                    requires
                        value > (u64::MAX - digit) / 10,
                        digit <= 9,
                ;
                assert(digits_value(d.take(i + 1 - start)) == value * 10 + digit);
                if all_digits(d) {
                    lemma_digits_value_grows(d, i + 1 - start);
                    assert(digits_value(d) > u64::MAX);
                }
                assert(decimal_u64(t@) is None);
            }
            return None;
        }
        assert(value * 10 + digit <= u64::MAX) by (nonlinear_arith)
            requires
                value <= (u64::MAX - digit) / 10,
                digit <= 9,
        ;
        value = value * 10 + digit;
        i += 1;
    }
    assert(d.take(n - start) =~= d);
    assert(all_digits(d)) by {
        assert forall|j: int| 0 <= j < d.len() implies '0' <= #[trigger] d[j] <= '9' by {
            assert(d[j] == t@[j + start]);
        }
    }
    Some(value)
}


/// The instant that an HTTP date names, in whole seconds after the Unix epoch.
pub uninterp spec fn http_date_secs_of(s: Seq<char>) -> Option<u64>;

/// Relies on `httpdate::parse_http_date`: whether a text is an HTTP date
/// (IMF-fixdate, RFC 850 or asctime), and which instant, depends on the text
/// alone. Such dates lie in the years 1970 to 9999.
#[verifier::external_body]
fn http_date_secs(s: &str) -> (r: Option<u64>)
    ensures
        r == http_date_secs_of(s@),
{
    httpdate::parse_http_date(s).ok().and_then(|t| t.duration_since(std::time::UNIX_EPOCH).ok()).map(
        |d| d.as_secs(),
    )
}

/// The wall clock: whether it reads at or after the Unix epoch, and how far
/// from it.
#[derive(Clone, Copy, Debug)]
pub struct WallTime {
    pub after_epoch: bool,
    pub offset: Delay,
}

impl WallTime {
    pub open spec fn wf(self) -> bool {
        self.offset.wf()
    }

    /// Nanoseconds after the epoch; negative before it.
    pub open spec fn signed_nanos(self) -> int {
        if self.after_epoch {
            self.offset.total_nanos()
        } else {
            -self.offset.total_nanos()
        }
    }
}

/// Relies on `std::time::SystemTime::now` and `duration_since` of the Unix
/// epoch: the time now, which nothing fixes; `subsec_nanos` is below one
/// second.
#[verifier::external_body]
pub(crate) fn wall_time_now() -> (r: WallTime)
    ensures
        r.wf(),
{
    match std::time::SystemTime::now().duration_since(std::time::UNIX_EPOCH) {
        Ok(d) => WallTime { after_epoch: true, offset: Delay { secs: d.as_secs(), nanos: d.subsec_nanos() } },
        Err(e) => WallTime {
            after_epoch: false,
            offset: Delay { secs: e.duration().as_secs(), nanos: e.duration().subsec_nanos() },
        },
    }
}

/// What a `Retry-After` value says: a number of seconds, or an instant.
pub enum RetryHint {
    Seconds(u64),
    Date(u64),
}

/// The hint of the first `Retry-After` header: its trimmed, non-empty text
/// read as decimal seconds, else as an HTTP date.
pub open spec fn retry_hint(h: Seq<(Seq<char>, Seq<u8>)>) -> Option<RetryHint> {
    match nonempty_header_text(h, "retry-after"@) {
        Some(t) => match decimal_u64(t) {
            Some(n) => Some(RetryHint::Seconds(n)),
            None => match http_date_secs_of(t) {
                Some(w) => Some(RetryHint::Date(w)),
                None => None,
            },
        },
        None => None,
    }
}

/// The longest span a `Delay` holds, in nanoseconds.
pub open spec fn max_delay_nanos() -> int {
    u64::MAX as int * NANOS_PER_SEC as int + (NANOS_PER_SEC as int - 1)
}

/// The span from `now` until `when` seconds after the epoch: zero for an
/// instant in the past, and at most the longest span.
pub open spec fn nanos_until(when: u64, now: WallTime) -> int {
    let diff = when as int * NANOS_PER_SEC as int - now.signed_nanos();
    if diff <= 0 {
        0
    } else if diff > max_delay_nanos() {
        max_delay_nanos()
    } else {
        diff
    }
}

/// The wait a hint asks for, in nanoseconds, at time `now`.
pub open spec fn hint_nanos(hint: RetryHint, now: WallTime) -> int {
    match hint {
        RetryHint::Seconds(n) => n as int * NANOS_PER_SEC as int,
        RetryHint::Date(w) => nanos_until(w, now),
    }
}

/// The span from `now` until `when` seconds after the epoch.
pub fn delay_until(when: u64, now: WallTime) -> (r: Delay)
    requires
        now.wf(),
    ensures
        r.wf(),
        r.total_nanos() == nanos_until(when, now),
{
    let billion: i128 = NANOS_PER_SEC as i128;
    let now_total: i128 = (now.offset.secs as i128) * billion + now.offset.nanos as i128;
    let signed: i128 = if now.after_epoch { now_total } else { -now_total };
    let diff: i128 = (when as i128) * billion - signed;
    if diff <= 0 {
        return Delay::zero();
    }
    let secs: i128 = diff / billion;
    let nanos: i128 = diff % billion;
    if secs > u64::MAX as i128 {
        let r = Delay { secs: u64::MAX, nanos: NANOS_PER_SEC - 1 };
        assert(diff > max_delay_nanos()) by (nonlinear_arith)
            requires
                secs == diff / 1_000_000_000,
                secs > 0xffff_ffff_ffff_ffff,
                diff > 0,
        ;
        return r;
    }
    let r = Delay { secs: secs as u64, nanos: nanos as u32 };
    assert(r.total_nanos() == diff) by (nonlinear_arith)
        requires
            secs == diff / 1_000_000_000,
            nanos == diff % 1_000_000_000,
            r.total_nanos() == secs * 1_000_000_000 + nanos,
            diff > 0,
    ;
    assert(diff <= max_delay_nanos()) by (nonlinear_arith)
        requires
            secs == diff / 1_000_000_000,
            secs <= 0xffff_ffff_ffff_ffff,
            diff > 0,
    ;
    r
}

/// The server's retry hint of a response, as a wait measured from `now`.
pub fn extract_retry_after_at(headers: &HeaderList, now: WallTime) -> (r: Option<Delay>)
    requires
        now.wf(),
    ensures
        match retry_hint(headers@) {
            Some(hint) => r matches Some(d) && d.wf() && d.total_nanos() == hint_nanos(hint, now),
            None => r is None,
        },
{
    let text = match nonempty_text(headers, "retry-after") {
        Some(t) => t,
        None => return None,
    };
    let chars = crate::text::chars_of(text.as_str());
    match parse_u64(chars.as_slice()) {
        Some(n) => Some(Delay::from_secs(n)),
        None => match http_date_secs(text.as_str()) {
            Some(w) => Some(delay_until(w, now)),
            None => None,
        },
    }
}

/// The server's retry hint of a response, as a wait from the time now: the
/// number of seconds it gives, or the span until the instant it names, for
/// some reading of the clock.
pub fn extract_retry_after(headers: &HeaderList) -> (r: Option<Delay>)
    ensures
        exists|now: WallTime|
            now.wf() && match retry_hint(headers@) {
                Some(hint) => r matches Some(d) && d.wf() && d.total_nanos() == hint_nanos(hint, now),
                None => r is None,
            },
{
    let now = wall_time_now();
    extract_retry_after_at(headers, now)
}

} // verus!
