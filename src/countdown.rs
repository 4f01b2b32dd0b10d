//! Waiting for the sale to open: a countdown against the authority's clock.
use vstd::prelude::*;

use crate::clock::clock_offset;

verus! {

/// chrono's date and time without a time zone, held opaque.
#[verifier::external_type_specification]
#[verifier::external_body]
pub struct ExNaiveDateTime(chrono::NaiveDateTime);

/// Name for whether chrono reads the text as a date and time in the format.
pub uninterp spec fn naive_datetime_accepts(s: Seq<char>, fmt: Seq<char>) -> bool;

/// Relies on `chrono::NaiveDateTime::parse_from_str`, a function of the text
/// and the format alone.
#[verifier::external_body]
fn parse_naive(s: &str, fmt: &str) -> (r: Option<chrono::NaiveDateTime>)
    ensures
        r is Some == naive_datetime_accepts(s@, fmt@),
{
    chrono::NaiveDateTime::parse_from_str(s, fmt).ok()
}

/// Relies on `NaiveDateTime::and_local_timezone(Local)` with `single()` and
/// `timestamp_millis()`: the instant in the machine's time zone, `None` when
/// that local time is skipped or repeated there.
#[verifier::external_body]
fn local_epoch_millis(t: &chrono::NaiveDateTime) -> (r: Option<i64>) {
    match t.and_local_timezone(chrono::Local).single() {
        Some(d) => Some(d.timestamp_millis()),
        None => None,
    }
}

/// A start time written with a space between date and time.
pub const START_FORMAT_SPACED: &'static str = "%Y-%m-%d %H:%M:%S";

/// A start time written with a `T` between date and time.
pub const START_FORMAT_ISO: &'static str = "%Y-%m-%dT%H:%M:%S";

/// A start time written in neither accepted format.
#[derive(Clone, Copy, PartialEq, Eq, Structural)]
pub struct BadStartTime;

/// The configured start time in milliseconds since the epoch, read as local
/// time in either format. `Err` exactly for text in neither format (a
/// configuration error: the task then starts without waiting). `Ok(None)`
/// when the text is well formed but names a local time that the machine's
/// time zone skips or repeats.
pub fn parse_start_time(ts: &str) -> (r: Result<Option<i64>, BadStartTime>)
    ensures
        r is Err <==> !naive_datetime_accepts(ts@, START_FORMAT_SPACED@)
            && !naive_datetime_accepts(ts@, START_FORMAT_ISO@),
{
    match parse_naive(ts, START_FORMAT_SPACED) {
        Some(t) => Ok(local_epoch_millis(&t)),
        None => match parse_naive(ts, START_FORMAT_ISO) {
            Some(t) => Ok(local_epoch_millis(&t)),
            None => Err(BadStartTime),
        },
    }
}

/// Re-estimate the offset at most this often.
pub const SYNC_INTERVAL_MS: i64 = 10_000;

/// No re-estimate once this little time is left.
pub const SYNC_MIN_REMAINING_MS: i64 = 2_000;

/// Coarse sleeping while more than this is left.
pub const COARSE_THRESHOLD_MS: i64 = 5_000;

/// The coarse sleep quantum.
pub const COARSE_SLEEP_MS: u64 = 1_000;

/// The fine sleep quantum.
pub const FINE_SLEEP_MS: u64 = 100;

/// What the waiting task does next.
#[derive(PartialEq, Eq, Structural)]
pub enum WaitStep {
    /// The cancellation flag is set: stop waiting, do not fire.
    Cancelled,
    /// The target is reached.
    Fire,
    /// Estimate the clock offset again, then decide anew.
    Resync,
    /// Sleep this many milliseconds, then decide anew.
    Sleep(u64),
}

/// A countdown to an instant of the authority's clock, corrected by the
/// latest known offset between that clock and the local one.
pub struct Countdown {
    /// The target instant, authoritative milliseconds since the epoch.
    pub target_ms: i64,
    /// The authority's clock minus the local one, in milliseconds.
    pub offset_ms: i64,
    /// Local time of the last estimate attempt.
    pub last_sync_ms: i64,
}

impl Countdown {
    /// The target in local time.
    pub open spec fn local_target(self) -> int {
        self.target_ms - self.offset_ms
    }

    /// Time left until the target, seen from local time `now`.
    pub open spec fn remaining(self, now: int) -> int {
        self.local_target() - now
    }

    /// The decision at local time `now`.
    pub open spec fn step(self, now: int, cancelled: bool) -> WaitStep {
        if cancelled {
            WaitStep::Cancelled
        } else if self.remaining(now) <= 0 {
            WaitStep::Fire
        } else if self.remaining(now) > SYNC_MIN_REMAINING_MS && now - self.last_sync_ms
            > SYNC_INTERVAL_MS {
            WaitStep::Resync
        } else if self.remaining(now) > COARSE_THRESHOLD_MS {
            WaitStep::Sleep(COARSE_SLEEP_MS)
        } else {
            WaitStep::Sleep(FINE_SLEEP_MS)
        }
    }

    /// A countdown to `target_ms` under the offset known at local time `now_ms`.
    pub fn new(target_ms: i64, offset_ms: i64, now_ms: i64) -> (r: Self)
        ensures
            r.target_ms == target_ms,
            r.offset_ms == offset_ms,
            r.last_sync_ms == now_ms,
    {
        Countdown { target_ms, offset_ms, last_sync_ms: now_ms }
    }

    /// Decides the next step at local time `now_ms`: stop when cancelled,
    /// fire once the corrected target is reached, re-estimate the offset every
    /// ten seconds while more than two seconds are left, else sleep coarsely
    /// while more than five seconds are left and finely below that.
    pub fn decide(&self, now_ms: i64, cancelled: bool) -> (r: WaitStep)
        ensures
            r == self.step(now_ms as int, cancelled),
    {
        if cancelled {
            return WaitStep::Cancelled;
        }
        let remaining = self.target_ms as i128 - self.offset_ms as i128 - now_ms as i128;
        if remaining <= 0 {
            WaitStep::Fire
        } else if remaining > SYNC_MIN_REMAINING_MS as i128 && now_ms as i128
            - self.last_sync_ms as i128 > SYNC_INTERVAL_MS as i128 {
            WaitStep::Resync
        } else if remaining > COARSE_THRESHOLD_MS as i128 {
            WaitStep::Sleep(COARSE_SLEEP_MS)
        } else {
            WaitStep::Sleep(FINE_SLEEP_MS)
        }
    }

    /// Takes the outcome of an estimate made at local time `local_ms`: a
    /// reading of the authority's clock replaces the offset, and so moves the
    /// corrected target at once; a failed one keeps the previous offset.
    pub fn apply_sync(&mut self, server_ms: Option<i64>, local_ms: i64)
        ensures
            final(self).target_ms == old(self).target_ms,
            final(self).last_sync_ms == local_ms,
            server_ms is None ==> final(self).offset_ms == old(self).offset_ms,
            server_ms matches Some(s) ==> if i64::MIN <= s - local_ms <= i64::MAX {
                final(self).offset_ms == s - local_ms
            } else {
                final(self).offset_ms == old(self).offset_ms
            },
    {
        if let Some(s) = server_ms {
            if let Some(d) = clock_offset(s, local_ms) {
                self.offset_ms = d;
            }
        }
        self.last_sync_ms = local_ms;
    }
}

/// The countdown never fires early: it fires only once local time has
/// reached the corrected target. No sleep it asks for carries past that target
/// by more than one fine quantum, and once the target is reached an uncancelled
/// countdown fires; so it fires within one fine quantum of the target.
pub proof fn lemma_fires_on_time(c: Countdown, now: int, later: int)
    ensures
        c.step(now, false) == WaitStep::Fire ==> now >= c.local_target(),
        c.step(now, false) matches WaitStep::Sleep(d) ==> now + d < c.local_target()
            + FINE_SLEEP_MS,
        c.step(now, false) == WaitStep::Resync ==> c.remaining(now) > SYNC_MIN_REMAINING_MS,
        later >= c.local_target() ==> c.step(later, false) == WaitStep::Fire,
{
}

/// A set cancellation flag ends the wait at the next decision, whatever the
/// clock reads.
pub proof fn lemma_cancel_ends_wait(c: Countdown, now: int)
    ensures
        c.step(now, true) == WaitStep::Cancelled,
{
}

} // verus!
