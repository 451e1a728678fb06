//! Clock readings and the two kinds of duration that the player deals in: how
//! long ago something happened ([`Elapsed`]), and the signed durations of the
//! playback API ([`TimeDelta`]).

use std::time::Instant;
use vstd::prelude::*;

verus! {

/// Nanoseconds in one second.
pub const NANOS_PER_SEC: u32 = 1_000_000_000;

/// The greatest number of nanoseconds that a [`TimeDelta`] holds: `i64::MAX`
/// milliseconds.
pub const MAX_DELTA_NANOS: i128 = 9_223_372_036_854_775_807_000_000;

/// `std::time::Instant`, a reading of the monotonic clock. Nothing is known of
/// what is inside.
#[verifier::external_type_specification]
#[verifier::external_body]
pub struct ExInstant(std::time::Instant);

/// A span of time that has passed, in nanoseconds.
#[derive(Clone, Copy, Debug)]
pub struct Elapsed {
    secs: u64,
    nanos: u32,
}

impl View for Elapsed {
    type V = nat;

    closed spec fn view(&self) -> nat {
        (self.secs * NANOS_PER_SEC + self.nanos) as nat
    }
}

impl Elapsed {
    #[verifier::type_invariant]
    spec fn inv(self) -> bool {
        self.nanos < NANOS_PER_SEC
    }

    /// No time at all.
    pub fn zero() -> (e: Elapsed)
        ensures
            e@ == 0,
    {
        Elapsed { secs: 0, nanos: 0 }
    }

    /// A whole number of seconds.
    pub fn from_secs(secs: u64) -> (e: Elapsed)
        ensures
            e@ == secs * NANOS_PER_SEC,
    {
        Elapsed { secs, nanos: 0 }
    }

    /// A whole number of milliseconds.
    pub fn from_millis(millis: u64) -> (e: Elapsed)
        ensures
            e@ == millis * 1_000_000,
    {
        let secs: u64 = millis / 1000;
        let nanos: u32 = ((millis % 1000) * 1_000_000) as u32;
        Elapsed { secs, nanos }
    }

    /// Whether at least as much time has passed as `limit` says.
    pub fn at_least(&self, limit: &Elapsed) -> (b: bool)
        ensures
            b == (self@ >= limit@),
    {
        proof {
            use_type_invariant(self);
            use_type_invariant(limit);
        }
        self.secs > limit.secs || (self.secs == limit.secs && self.nanos >= limit.nanos)
    }
}

/// The current reading of the monotonic clock: `std::time::Instant::now`.
/// Nothing is claimed of the reading.
#[verifier::external_body]
fn now() -> (t: Instant) {
    Instant::now()
}

/// How much time has passed since `since`: `std::time::Instant::elapsed`, with
/// the duration split into its whole seconds and the rest. What it gives
/// depends on the clock: nothing is claimed of its length. That the rest is
/// less than a second, as every [`Elapsed`] has it, is what
/// `std::time::Duration::subsec_nanos` promises.
#[verifier::external_body]
fn elapsed(since: &Instant) -> (e: Elapsed) {
    let passed = since.elapsed();
    Elapsed { secs: passed.as_secs(), nanos: passed.subsec_nanos() }
}

/// Whether `t` is a reading that the clock gives.
pub closed spec fn read(t: Instant) -> bool {
    call_ensures(now, (), t)
}

/// Whether the clock gives `nanos` nanoseconds as the time that has passed since
/// `since`.
pub closed spec fn passed(since: Instant, nanos: nat) -> bool {
    exists|e: Elapsed| #[trigger] call_ensures(elapsed, (&since,), e) && e@ == nanos
}

fn ask_now<F: Fn() -> Instant>(clock: F) -> (t: Instant)
    requires
        clock.requires(()),
    ensures
        clock.ensures((), t),
{
    clock()
}

fn ask_elapsed<F: Fn(&Instant) -> Elapsed>(clock: F, since: &Instant) -> (e: Elapsed)
    requires
        clock.requires((since,)),
    ensures
        clock.ensures((since,), e),
{
    clock(since)
}

/// Reads the clock.
pub(crate) fn read_clock() -> (t: Instant)
    ensures
        read(t),
{
    ask_now(now)
}

/// Asks the clock how much time has passed since `since`.
pub(crate) fn time_since(since: &Instant) -> (e: Elapsed)
    ensures
        passed(*since, e@),
{
    ask_elapsed(elapsed, since)
}

/// A reading is one that [`now`] gives, and a time that has passed is one that
/// [`elapsed`] gives for the reading that it is asked about.
proof fn clock_gives_what_it_is_asked_for(since: Instant, nanos: nat, t: Instant)
    ensures
        read(t) ==> now.ensures((), t),
        passed(since, nanos) ==> exists|e: Elapsed|
            #[trigger] elapsed.ensures((&since,), e) && e@ == nanos,
{
}

/// A signed duration with nanosecond precision, between `-i64::MAX` and
/// `i64::MAX` milliseconds: the plain contents of a `chrono::TimeDelta`.
#[derive(Clone, Copy, Debug, PartialEq, Eq)]
pub struct TimeDelta {
    secs: i64,
    nanos: u32,
}

impl View for TimeDelta {
    type V = int;

    closed spec fn view(&self) -> int {
        self.secs * NANOS_PER_SEC + self.nanos
    }
}

impl TimeDelta {
    /// Holds of every duration.
    #[verifier::type_invariant]
    pub closed spec fn inv(self) -> bool {
        &&& self.nanos < NANOS_PER_SEC
        &&& -MAX_DELTA_NANOS <= self@ <= MAX_DELTA_NANOS
    }

    /// Every duration lies within the bounds.
    pub proof fn lemma_bounds(self)
        requires
            self.inv(),
        ensures
            -MAX_DELTA_NANOS <= self@ <= MAX_DELTA_NANOS,
    {
    }

    /// No time at all.
    pub fn zero() -> (d: TimeDelta)
        ensures
            d@ == 0,
    {
        TimeDelta { secs: 0, nanos: 0 }
    }

    /// A whole number of milliseconds.
    pub fn milliseconds(millis: i64) -> (d: TimeDelta)
        requires
            millis != i64::MIN,
        ensures
            d@ == millis * 1_000_000,
    {
        let mut secs: i64 = millis / 1000;
        let mut rest: i64 = millis % 1000;
        if rest < 0 {
            secs = secs - 1;
            rest = rest + 1000;
        }
        let nanos: u32 = (rest as u32) * 1_000_000;
        TimeDelta { secs, nanos }
    }

    /// The length in nanoseconds.
    pub fn num_nanoseconds(&self) -> (n: i128)
        ensures
            n == self@,
            -MAX_DELTA_NANOS <= n <= MAX_DELTA_NANOS,
    {
        proof {
            use_type_invariant(self);
        }
        (self.secs as i128) * (NANOS_PER_SEC as i128) + (self.nanos as i128)
    }

    /// The sum of two durations.
    pub fn plus(&self, other: &TimeDelta) -> (sum: TimeDelta)
        requires
            -MAX_DELTA_NANOS <= self@ + other@ <= MAX_DELTA_NANOS,
        ensures
            sum@ == self@ + other@,
    {
        let (secs, nanos): (i64, i32) = chrono_sum(self, other);
        if nanos < 0 {
            TimeDelta { secs: secs - 1, nanos: (nanos + 1_000_000_000) as u32 }
        } else {
            TimeDelta { secs, nanos: nanos as u32 }
        }
    }

    /// Whether this duration is at least as long as `other`.
    pub fn at_least(&self, other: &TimeDelta) -> (b: bool)
        ensures
            b == (self@ >= other@),
    {
        proof {
            use_type_invariant(self);
            use_type_invariant(other);
        }
        self.secs > other.secs || (self.secs == other.secs && self.nanos >= other.nanos)
    }
}

/// `chrono::TimeDelta::from_std` on the time that has passed. It gives back
/// the same number of nanoseconds, and fails exactly where that is more than
/// a `chrono::TimeDelta` holds.
#[verifier::external_body]
pub(crate) fn from_std(elapsed: &Elapsed) -> (d: Option<TimeDelta>)
    ensures
        match d {
            Some(d) => elapsed@ <= MAX_DELTA_NANOS && d@ == elapsed@,
            None => elapsed@ > MAX_DELTA_NANOS,
        },
{
    let passed = std::time::Duration::new(elapsed.secs, elapsed.nanos);
    match chrono::TimeDelta::from_std(passed) {
        Ok(d) => Some(TimeDelta { secs: d.num_seconds(), nanos: d.subsec_nanos() as u32 }),
        Err(_) => None,
    }
}

/// `+` on two `chrono::TimeDelta`s. It panics where the sum is out of bounds;
/// elsewhere the whole seconds and the remaining nanoseconds of the result,
/// which have the sign of the result, add up to the sum of the operands.
#[verifier::external_body]
fn chrono_sum(a: &TimeDelta, b: &TimeDelta) -> (sum: (i64, i32))
    requires
        -MAX_DELTA_NANOS <= a@ + b@ <= MAX_DELTA_NANOS,
    ensures
        sum.0 * NANOS_PER_SEC + sum.1 == a@ + b@,
        -NANOS_PER_SEC < sum.1 < NANOS_PER_SEC,
{
    let a = chrono::TimeDelta::new(a.secs, a.nanos).unwrap();
    let b = chrono::TimeDelta::new(b.secs, b.nanos).unwrap();
    let sum = a + b;
    (sum.num_seconds(), sum.subsec_nanos())
}

} // verus!
