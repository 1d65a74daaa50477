use std::time::{Instant, SystemTime, UNIX_EPOCH};

use vstd::prelude::*;

use crate::text::{digit, digit_char, push_char};

verus! {

// ---------------------------------------------------------------------------
// Clock access
// ---------------------------------------------------------------------------

/// `std::time::Instant`, a reading of the monotonic clock, carried through
/// unopened.
#[verifier::external_type_specification]
#[verifier::external_body]
pub struct ExInstant(Instant);

/// `std::time::SystemTime`, a reading of the wall clock, carried through
/// unopened.
#[verifier::external_type_specification]
#[verifier::external_body]
pub struct ExSystemTime(SystemTime);

/// The largest number of nanoseconds a `std::time::Duration` can hold:
/// `u64::MAX` whole seconds and 999 999 999 nanoseconds.
pub open spec fn max_duration_nanos() -> int {
    u64::MAX as int * 1_000_000_000 + 999_999_999
}

/// `Instant::now`: the current reading of the monotonic clock. What it is
/// depends on the time of the call, so nothing is stated of it.
#[verifier::external_body]
fn instant_now() -> Instant {
    Instant::now()
}

/// `Instant::elapsed`, in nanoseconds (`Duration::as_nanos`): the time that
/// has passed since `start`. It depends on the time of the call; all that is
/// stated is that it fits in a `Duration`.
#[verifier::external_body]
fn nanos_since(start: &Instant) -> (r: u128)
    ensures
        r <= max_duration_nanos(),
{
    start.elapsed().as_nanos()
}

/// `SystemTime::now`: the current reading of the wall clock. What it is
/// depends on the time of the call, so nothing is stated of it.
#[verifier::external_body]
fn system_now() -> SystemTime {
    SystemTime::now()
}

/// `SystemTime::duration_since(UNIX_EPOCH)` in whole milliseconds
/// (`Duration::as_millis`), or `None` where the reading lies before 1970.
/// The value depends on the clock reading, so nothing is stated of it.
#[verifier::external_body]
fn millis_since_epoch(t: &SystemTime) -> Option<u128> {
    match t.duration_since(UNIX_EPOCH) {
        Ok(d) => Some(d.as_millis()),
        Err(_) => None,
    }
}

/// What `unix_ms` makes of the wall-clock reading: the milliseconds since
/// 1970 cut to 64 bits, or 0 for a clock set before 1970.
pub open spec fn unix_ms_spec(since_epoch: Option<u128>) -> u64 {
    match since_epoch {
        Some(ms) => ms as u64,
        None => 0,
    }
}

/// Turns a wall-clock reading in milliseconds since the epoch (`None` for a
/// clock set before 1970) into the timestamp that chat messages carry.
pub fn unix_ms_from(since_epoch: Option<u128>) -> (r: u64)
    ensures
        r == unix_ms_spec(since_epoch),
{
    match since_epoch {
        Some(ms) => ms as u64,
        None => 0,
    }
}

/// Current time in milliseconds since the Unix epoch; 0 if the system clock
/// is set before 1970.
pub fn unix_ms() -> (r: u64)
    ensures
        exists|since_epoch: Option<u128>| r == unix_ms_spec(since_epoch),
{
    let now = system_now();
    let since = millis_since_epoch(&now);
    let r = unix_ms_from(since);
    assert(r == unix_ms_spec(since));
    r
}

// ---------------------------------------------------------------------------
// Decimal text
// ---------------------------------------------------------------------------

/// `n` written in decimal, without leading zeros.
pub open spec fn decimal_spec(n: nat) -> Seq<char>
    decreases n,
{
    if n < 10 {
        seq![digit_char(n)]
    } else {
        decimal_spec(n / 10).push(digit_char(n % 10))
    }
}

/// `n` in decimal, padded with a leading zero to at least two digits
/// (the `{:02}` format).
pub open spec fn pad2_spec(n: nat) -> Seq<char> {
    if n < 10 {
        seq!['0', digit_char(n)]
    } else {
        decimal_spec(n)
    }
}

fn push_decimal(out: &mut String, n: u64)
    ensures
        final(out)@ == old(out)@ + decimal_spec(n as nat),
    decreases n,
{
    if n >= 10 {
        push_decimal(out, n / 10);
    }
    push_char(out, digit(n % 10));
    proof {
        if n < 10 {
            assert(n % 10 == n);
        }
    }
    assert(final(out)@ =~= old(out)@ + decimal_spec(n as nat)) by {
        if n >= 10 {
            assert(decimal_spec(n as nat) == decimal_spec((n / 10) as nat).push(
                digit_char((n % 10) as nat),
            ));
        }
    }
}

fn push_pad2(out: &mut String, n: u64)
    ensures
        final(out)@ == old(out)@ + pad2_spec(n as nat),
{
    if n < 10 {
        push_char(out, '0');
    }
    push_decimal(out, n);
    assert(final(out)@ =~= old(out)@ + pad2_spec(n as nat));
}

/// A number below one hundred has a two-digit padded form.
pub proof fn lemma_pad2_len(n: nat)
    requires
        n < 100,
    ensures
        pad2_spec(n).len() == 2,
{
    if n >= 10 {
        assert(decimal_spec(n / 10).len() == 1);
    }
}

// ---------------------------------------------------------------------------
// Clock and duration text
// ---------------------------------------------------------------------------

/// Milliseconds in one day.
pub open spec fn day_ms() -> nat {
    86_400_000
}

/// The time of day, in UTC, of a Unix-millisecond timestamp, as `HH:MM`.
pub open spec fn clock_spec(unix_ms: nat) -> Seq<char> {
    let secs_today = (unix_ms / 1000) % 86_400;
    let h = secs_today / 3600;
    let m = (secs_today / 60) % 60;
    pad2_spec(h) + seq![':'] + pad2_spec(m)
}

/// A session length in whole seconds, as `MM:SS` under an hour and
/// `HH:MM:SS` from an hour on.
pub open spec fn elapsed_text_spec(secs: nat) -> Seq<char> {
    let h = secs / 3600;
    let m = (secs / 60) % 60;
    let s = secs % 60;
    if h > 0 {
        pad2_spec(h) + seq![':'] + pad2_spec(m) + seq![':'] + pad2_spec(s)
    } else {
        pad2_spec(m) + seq![':'] + pad2_spec(s)
    }
}

/// Formats a Unix-ms timestamp as "HH:MM" in UTC.
pub fn format_clock(unix_ms: u64) -> (r: String)
    ensures
        r@ == clock_spec(unix_ms as nat),
{
    let secs_today = (unix_ms / 1000) % 86_400;
    let h = secs_today / 3600;
    let m = (secs_today / 60) % 60;
    let mut out = String::new();
    push_pad2(&mut out, h);
    push_char(&mut out, ':');
    push_pad2(&mut out, m);
    assert(out@ =~= clock_spec(unix_ms as nat));
    out
}

/// Formats a number of whole seconds as "MM:SS", or "HH:MM:SS" from one
/// hour on.
pub fn format_elapsed_secs(secs: u64) -> (r: String)
    ensures
        r@ == elapsed_text_spec(secs as nat),
{
    let h = secs / 3600;
    let m = (secs / 60) % 60;
    let s = secs % 60;
    let mut out = String::new();
    if h > 0 {
        push_pad2(&mut out, h);
        push_char(&mut out, ':');
    }
    push_pad2(&mut out, m);
    push_char(&mut out, ':');
    push_pad2(&mut out, s);
    assert(out@ =~= elapsed_text_spec(secs as nat));
    out
}

/// A clock text is always five characters, `HH:MM`, with a colon in the
/// middle.
pub proof fn lemma_clock_shape(unix_ms: nat)
    ensures
        clock_spec(unix_ms).len() == 5,
        clock_spec(unix_ms)[2] == ':',
{
    let secs_today = (unix_ms / 1000) % 86_400;
    lemma_pad2_len(secs_today / 3600);
    lemma_pad2_len((secs_today / 60) % 60);
}

/// The clock text repeats every day: one day later reads the same.
pub proof fn lemma_clock_daily(unix_ms: nat)
    ensures
        clock_spec(unix_ms + day_ms()) == clock_spec(unix_ms),
{
    assert((unix_ms + 86_400_000) / 1000 == unix_ms / 1000 + 86_400);
    assert((unix_ms / 1000 + 86_400) % 86_400 == (unix_ms / 1000) % 86_400);
}

/// Under an hour the duration text is `MM:SS`, five characters.
pub proof fn lemma_elapsed_short_form(secs: nat)
    requires
        secs < 3600,
    ensures
        elapsed_text_spec(secs).len() == 5,
        elapsed_text_spec(secs)[2] == ':',
{
    lemma_pad2_len((secs / 60) % 60);
    lemma_pad2_len(secs % 60);
}

// ---------------------------------------------------------------------------
// Countdown
// ---------------------------------------------------------------------------

/// Nanoseconds in one second.
pub open spec fn nanos_per_sec() -> int {
    1_000_000_000
}

/// What is left of a countdown of `total_secs` seconds once `elapsed`
/// nanoseconds have passed, in nanoseconds; never below zero.
pub open spec fn remaining_nanos_spec(total_secs: u64, elapsed: u128) -> int {
    let total = total_secs * nanos_per_sec();
    if elapsed >= total {
        0
    } else {
        total - elapsed
    }
}

/// Whether a countdown of `total_secs` seconds has run out once `elapsed`
/// nanoseconds have passed.
pub open spec fn expired_spec(total_secs: u64, elapsed: u128) -> bool {
    elapsed >= total_secs * nanos_per_sec()
}

/// Counts down from a starting duration. Created once, polled each frame.
pub struct Countdown {
    start: Instant,
    total_secs: u64,
}

impl Countdown {
    /// The length of the countdown in whole seconds.
    pub closed spec fn total_secs_spec(&self) -> u64 {
        self.total_secs
    }

    #[verifier::type_invariant]
    spec fn inv(&self) -> bool {
        self.total_secs >= 1
    }

    /// Starts a countdown of `total_secs` seconds from now; a length of zero
    /// is raised to one second.
    pub fn new(total_secs: u64) -> (c: Self)
        ensures
            c.total_secs_spec() == if total_secs == 0 { 1 } else { total_secs },
            c.total_secs_spec() >= 1,
    {
        let total = if total_secs == 0 { 1 } else { total_secs };
        Countdown { start: instant_now(), total_secs: total }
    }

    /// The countdown's length in whole seconds.
    pub fn total_secs(&self) -> (r: u64)
        ensures
            r == self.total_secs_spec(),
            r >= 1,
    {
        proof {
            use_type_invariant(self);
        }
        self.total_secs
    }

    /// Time left, in nanoseconds, once `elapsed_nanos` have passed since
    /// the start; zero once the countdown has run out.
    pub fn remaining_at(&self, elapsed_nanos: u128) -> (r: u128)
        ensures
            r == remaining_nanos_spec(self.total_secs_spec(), elapsed_nanos),
    {
        let total: u128 = self.total_secs as u128 * 1_000_000_000;
        if elapsed_nanos >= total {
            0
        } else {
            total - elapsed_nanos
        }
    }

    /// Whole seconds left once `elapsed_nanos` have passed.
    pub fn remaining_secs_at(&self, elapsed_nanos: u128) -> (r: u64)
        ensures
            r == remaining_nanos_spec(self.total_secs_spec(), elapsed_nanos) / nanos_per_sec(),
    {
        let rem = self.remaining_at(elapsed_nanos);
        let secs = rem / 1_000_000_000;
        assert(secs <= self.total_secs);
        secs as u64
    }

    /// Whether the countdown has run out once `elapsed_nanos` have passed.
    pub fn expired_at(&self, elapsed_nanos: u128) -> (r: bool)
        ensures
            r == expired_spec(self.total_secs_spec(), elapsed_nanos),
    {
        let total: u128 = self.total_secs as u128 * 1_000_000_000;
        elapsed_nanos >= total
    }

    /// Time left now, in nanoseconds.
    pub fn remaining(&self) -> (r: u128)
        ensures
            exists|elapsed: u128| r == remaining_nanos_spec(self.total_secs_spec(), elapsed),
    {
        let e = nanos_since(&self.start);
        let r = self.remaining_at(e);
        assert(r == remaining_nanos_spec(self.total_secs_spec(), e));
        r
    }

    /// Whole seconds left now.
    pub fn remaining_secs(&self) -> (r: u64)
        ensures
            exists|elapsed: u128|
                r == remaining_nanos_spec(self.total_secs_spec(), elapsed) / nanos_per_sec(),
    {
        let e = nanos_since(&self.start);
        let r = self.remaining_secs_at(e);
        assert(r == remaining_nanos_spec(self.total_secs_spec(), e) / nanos_per_sec());
        r
    }

    /// Whether the countdown has run out by now.
    pub fn expired(&self) -> (r: bool)
        ensures
            exists|elapsed: u128| r == expired_spec(self.total_secs_spec(), elapsed),
    {
        let e = nanos_since(&self.start);
        let r = self.expired_at(e);
        assert(r == expired_spec(self.total_secs_spec(), e));
        r
    }
}

/// A countdown has run out exactly when nothing of it remains.
pub proof fn lemma_expired_iff_nothing_remains(total_secs: u64, elapsed: u128)
    requires
        total_secs >= 1,
    ensures
        expired_spec(total_secs, elapsed) <==> remaining_nanos_spec(total_secs, elapsed)
            == 0,
{
}

/// The time left never grows as time passes, and never exceeds the length
/// of the countdown.
pub proof fn lemma_remaining_never_grows(total_secs: u64, earlier: u128, later: u128)
    requires
        earlier <= later,
    ensures
        remaining_nanos_spec(total_secs, later) <= remaining_nanos_spec(total_secs, earlier),
        remaining_nanos_spec(total_secs, earlier) <= total_secs * nanos_per_sec(),
{
}

/// At the start the whole countdown remains.
pub proof fn lemma_remaining_at_start(total_secs: u64)
    ensures
        remaining_nanos_spec(total_secs, 0) == total_secs * nanos_per_sec(),
        remaining_nanos_spec(total_secs, 0) / nanos_per_sec() == total_secs,
{
}

// ---------------------------------------------------------------------------
// Elapsed
// ---------------------------------------------------------------------------

/// Counts up from creation. Used for the session duration display.
pub struct Elapsed {
    start: Instant,
}

impl Elapsed {
    /// Starts counting now.
    pub fn new() -> (e: Self) {
        Elapsed { start: instant_now() }
    }

    /// Whole seconds since creation.
    pub fn secs(&self) -> (r: u64) {
        let n = nanos_since(&self.start);
        let s = n / 1_000_000_000;
        assert(s <= u64::MAX);
        s as u64
    }

    /// The time since creation as "MM:SS", or "HH:MM:SS" from one hour on.
    pub fn format(&self) -> (r: String)
        ensures
            exists|secs: u64| r@ == elapsed_text_spec(secs as nat),
    {
        let s = self.secs();
        let r = format_elapsed_secs(s);
        assert(r@ == elapsed_text_spec(s as nat));
        r
    }
}

} // verus!
