//! Reconciling the local clock with a remote time authority.
use vstd::prelude::*;

use crate::text::has_char;

verus! {

/// Relies on `SystemTime::now().duration_since(UNIX_EPOCH)`: milliseconds
/// since the epoch, or `None` when the system clock reads before it.
#[verifier::external_body]
pub(crate) fn epoch_millis() -> (r: Option<u128>) {
    match std::time::SystemTime::now().duration_since(std::time::UNIX_EPOCH) {
        Ok(d) => Some(d.as_millis()),
        Err(_) => None,
    }
}

/// A clock reading in milliseconds, saturated to `i64`; zero for a clock
/// that reads before the epoch.
pub open spec fn reading_millis(ms: Option<u128>) -> i64 {
    match ms {
        Some(m) => if m > i64::MAX { i64::MAX } else { m as i64 },
        None => 0,
    }
}

/// A clock reading in whole seconds, saturated to `u64`; zero for a clock
/// that reads before the epoch.
pub open spec fn reading_seconds(ms: Option<u128>) -> u64 {
    match ms {
        Some(m) => if m / 1000 > u64::MAX { u64::MAX } else { (m / 1000) as u64 },
        None => 0,
    }
}

/// Milliseconds of a clock reading, by [`reading_millis`].
pub fn millis_as_i64(ms: Option<u128>) -> (r: i64)
    ensures
        r == reading_millis(ms),
{
    match ms {
        Some(m) => if m > i64::MAX as u128 { i64::MAX } else { m as i64 },
        None => 0,
    }
}

/// Whole seconds of a clock reading, by [`reading_seconds`].
pub fn seconds_from_reading(ms: Option<u128>) -> (r: u64)
    ensures
        r == reading_seconds(ms),
{
    match ms {
        Some(m) => if m / 1000 > u64::MAX as u128 { u64::MAX } else { (m / 1000) as u64 },
        None => 0,
    }
}

/// The local clock in milliseconds since the epoch: the reading of the
/// system clock, by [`millis_as_i64`].
pub fn get_local_time() -> (r: i64)
    ensures
        exists|reading: Option<u128>| r == reading_millis(reading),
        r >= 0,
{
    let reading = epoch_millis();
    millis_as_i64(reading)
}

/// Whether every character is an ASCII digit.
pub open spec fn all_digits(s: Seq<char>) -> bool {
    forall|i: int| 0 <= i < s.len() ==> '0' <= #[trigger] s[i] <= '9'
}

/// The value of a run of decimal digits.
pub open spec fn digits_value(s: Seq<char>) -> int
    decreases s.len(),
{
    if s.len() == 0 {
        0
    } else {
        digits_value(s.drop_last()) * 10 + (s.last() as int - '0' as int)
    }
}

/// What `i64::from_str` accepts: an optional `+` or `-`, then at least one
/// digit and nothing else, with a value in the range of `i64`.
pub open spec fn decimal_i64(s: Seq<char>) -> Option<i64> {
    let neg = s.len() > 0 && s[0] == '-';
    let body = if s.len() > 0 && (s[0] == '-' || s[0] == '+') { s.drop_first() } else { s };
    let v = if neg { -digits_value(body) } else { digits_value(body) };
    if body.len() > 0 && all_digits(body) && i64::MIN <= v <= i64::MAX {
        Some(v as i64)
    } else {
        None
    }
}

/// Relies on `str::parse::<i64>`, whose documented grammar is an optional
/// sign followed by decimal digits, failing on overflow.
#[verifier::external_body]
fn parse_i64(s: &str) -> (r: Option<i64>)
    ensures
        r == decimal_i64(s@),
{
    s.parse::<i64>().ok()
}

/// The fields of a time authority's JSON reply that carry its clock, each
/// present only when the reply holds it with the right JSON type.
pub struct TimeReply {
    /// `data.now`: seconds since the epoch.
    pub data_now: Option<i64>,
    /// `data.t`: milliseconds since the epoch, as text.
    pub data_t: Option<String>,
    /// `serverTime`: milliseconds since the epoch.
    pub server_time: Option<i64>,
    /// `time`: seconds or milliseconds, told apart by magnitude.
    pub time: Option<i64>,
}

/// Above this a bare `time` field is read as milliseconds, else as seconds.
/// A heuristic kept for compatibility, not a rule of any protocol.
pub const MILLIS_THRESHOLD: i64 = 100_000_000_000;

/// Seconds to milliseconds, when the result fits.
pub open spec fn secs_to_millis(s: i64) -> Option<i64> {
    if i64::MIN <= s * 1000 <= i64::MAX { Some((s * 1000) as i64) } else { None }
}

/// The authority's clock read from its reply: the first shape that is
/// present decides, in the order seconds under `data.now`, millisecond text
/// under `data.t` (skipped when it is no number), `serverTime`, then `time`.
pub open spec fn reply_time(r: TimeReply) -> Option<i64> {
    if r.data_now is Some {
        secs_to_millis(r.data_now->0)
    } else if r.data_t is Some && decimal_i64(r.data_t->0@) is Some {
        decimal_i64(r.data_t->0@)
    } else if r.server_time is Some {
        r.server_time
    } else if r.time is Some {
        let t = r.time->0;
        if t > MILLIS_THRESHOLD { Some(t) } else { secs_to_millis(t) }
    } else {
        None
    }
}

fn checked_secs_to_millis(s: i64) -> (r: Option<i64>)
    ensures
        r == secs_to_millis(s),
{
    if s > i64::MAX / 1000 || s < i64::MIN / 1000 {
        None
    } else {
        Some(s * 1000)
    }
}

/// The authority's time in milliseconds since the epoch, or `None` when the
/// reply has no recognised shape (a time synchronisation failure).
pub fn server_time_from_reply(reply: &TimeReply) -> (r: Option<i64>)
    ensures
        r == reply_time(*reply),
{
    if let Some(now) = reply.data_now {
        return checked_secs_to_millis(now);
    }
    if let Some(t) = &reply.data_t {
        if let Some(v) = parse_i64(t.as_str()) {
            return Some(v);
        }
    }
    if let Some(t) = reply.server_time {
        return Some(t);
    }
    if let Some(t) = reply.time {
        if t > MILLIS_THRESHOLD {
            return Some(t);
        }
        return checked_secs_to_millis(t);
    }
    None
}

/// Milliseconds for the whole seconds of a time-protocol answer.
pub fn millis_from_ntp_seconds(secs: u32) -> (r: i64)
    ensures
        r == secs * 1000,
{
    secs as i64 * 1000
}

/// The signed offset of the authority's clock over the local one, or `None`
/// when it does not fit in `i64`.
pub fn clock_offset(server_ms: i64, local_ms: i64) -> (r: Option<i64>)
    ensures
        r matches Some(d) ==> d == server_ms - local_ms,
        r is None <==> !(i64::MIN <= server_ms - local_ms <= i64::MAX),
{
    server_ms.checked_sub(local_ms)
}

/// Where the authority's time is asked for.
pub enum TimeAuthority {
    /// A JSON endpoint, by URL.
    Http(String),
    /// A time-protocol server, as `host:port`.
    Ntp(String),
}

/// The endpoint used when none is configured.
pub const DEFAULT_TIME_URL: &'static str = "https://api.bilibili.com/x/report/click/now";

/// The JSON endpoint to ask: the given URL, else the default one.
pub fn server_time_url(url: Option<String>) -> (r: String)
    ensures
        url matches Some(u) ==> r == u,
        url is None ==> r@ == DEFAULT_TIME_URL@,
{
    match url {
        Some(u) => u,
        None => String::from_str(DEFAULT_TIME_URL),
    }
}

/// A reference names an HTTP endpoint when it starts with `http`.
pub open spec fn is_http_reference(s: Seq<char>) -> bool {
    s.len() >= 4 && s[0] == 'h' && s[1] == 't' && s[2] == 't' && s[3] == 'p'
}

fn starts_with_http(s: &str) -> (r: bool)
    ensures
        r == is_http_reference(s@),
{
    let n = s.unicode_len();
    n >= 4 && s.get_char(0) == 'h' && s.get_char(1) == 't' && s.get_char(2) == 't'
        && s.get_char(3) == 'p'
}

/// The address of a time-protocol server: the reference itself when it names
/// a port, else the reference on the standard port 123.
pub fn ntp_address(server: &str) -> (r: String)
    ensures
        server@.contains(':') ==> r@ == server@,
        !server@.contains(':') ==> r@ == server@ + ":123"@,
{
    if has_char(server, ':') {
        String::from_str(server)
    } else {
        String::from_str(server).concat(":123")
    }
}

/// Picks the time authority: the configured reference, or the default
/// endpoint; a reference without the `http` prefix names a time-protocol host.
pub fn time_authority(reference: Option<String>) -> (r: TimeAuthority)
    ensures
        reference is None ==> (r matches TimeAuthority::Http(u) && u@ == DEFAULT_TIME_URL@),
        reference matches Some(s) ==> (is_http_reference(s@) ==> (r matches TimeAuthority::Http(u)
            && u@ == s@)),
        reference matches Some(s) ==> (!is_http_reference(s@) ==> (r matches TimeAuthority::Ntp(a)
            && (s@.contains(':') ==> a@ == s@) && (!s@.contains(':') ==> a@ == s@ + ":123"@))),
{
    match reference {
        None => TimeAuthority::Http(String::from_str(DEFAULT_TIME_URL)),
        Some(s) => if starts_with_http(s.as_str()) {
            TimeAuthority::Http(s)
        } else {
            TimeAuthority::Ntp(ntp_address(s.as_str()))
        },
    }
}

} // verus!
