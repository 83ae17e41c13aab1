//! Instants on a monotonic clock.

use vstd::prelude::*;

verus! {

/// `std::time::Instant`, carried without looking inside.
#[verifier::external_type_specification]
#[verifier::external_body]
pub struct ExStdInstant(std::time::Instant);

/// `std::time::Instant::now` reads the machine's monotonic clock. Nothing is
/// claimed of the reading.
pub assume_specification[ std::time::Instant::now ]() -> std::time::Instant;

/// The time from `earlier` to `later`, as
/// `std::time::Instant::saturating_duration_since` gives it.
pub uninterp spec fn time_between(
    later: std::time::Instant,
    earlier: std::time::Instant,
) -> std::time::Duration;

/// `std::time::Instant::saturating_duration_since` gives the time from
/// `earlier` to `later`, two readings that determine it. Readings are opaque
/// here, so the time has a name only; that it is zero where `later` comes first
/// is left unsaid.
pub assume_specification[ std::time::Instant::saturating_duration_since ](
    later: &std::time::Instant,
    earlier: std::time::Instant,
) -> (duration: std::time::Duration)
    ensures
        duration == time_between(*later, earlier),
;

/// How many whole seconds `duration` has, as `std::time::Duration::as_secs`
/// gives them.
pub uninterp spec fn secs_in(duration: std::time::Duration) -> u64;

/// `std::time::Duration::as_secs` gives the whole seconds of a duration, which
/// the duration determines. Durations are opaque here, so the number has a name
/// only.
pub assume_specification[ std::time::Duration::as_secs ](
    duration: &std::time::Duration,
) -> (secs: u64)
    ensures
        secs == secs_in(*duration),
;

/// How many nanoseconds `duration` has beyond its whole seconds, as
/// `std::time::Duration::subsec_nanos` gives them.
pub uninterp spec fn subsec_nanos_in(duration: std::time::Duration) -> u32;

/// `std::time::Duration::subsec_nanos` gives what a duration has beyond its
/// whole seconds, in nanoseconds. The duration determines it, and it is less
/// than a second. Durations are opaque here, so the number has a name only.
pub assume_specification[ std::time::Duration::subsec_nanos ](
    duration: &std::time::Duration,
) -> (nanos: u32)
    ensures
        nanos == subsec_nanos_in(*duration),
        nanos < 1_000_000_000,
;

/// How many nanoseconds `duration` has.
pub open spec fn nanos_in(duration: std::time::Duration) -> int {
    secs_in(duration) * NANOS_PER_SEC + subsec_nanos_in(duration)
}

/// How many nanoseconds lie between `origin` and `reading`: fewer than zero
/// where `reading` comes first.
pub open spec fn nanos_since(origin: std::time::Instant, reading: std::time::Instant) -> int {
    nanos_in(time_between(reading, origin)) - nanos_in(time_between(origin, reading))
}

/// A point in time: the nanoseconds since the start of a [`Clock`], fewer than
/// zero for what came before it.
#[derive(Debug, Clone, Copy, PartialEq, Eq, Structural)]
pub struct Instant {
    pub nanos: i128,
}

/// A length of time, split into whole seconds and the rest.
#[derive(Debug, Clone, Copy, PartialEq, Eq, Structural)]
pub struct Delay {
    pub secs: u128,
    pub subsec_nanos: u32,
}

pub const NANOS_PER_SEC: u128 = 1_000_000_000;

impl Delay {
    /// The length in nanoseconds.
    pub open spec fn total_nanos(self) -> int {
        self.secs * NANOS_PER_SEC + self.subsec_nanos
    }
}

impl Instant {
    /// Whether `self` has come, at the time `now`.
    pub open spec fn reached_at(self, now: Instant) -> bool {
        self.nanos <= now.nanos
    }

    /// Whether this instant has come, at the time `now`.
    pub fn reached(self, now: Instant) -> (reached: bool)
        ensures
            reached == self.reached_at(now),
    {
        now.nanos >= self.nanos
    }

    /// How long after `now` this instant comes.
    pub fn delay_from(self, now: Instant) -> (delay: Delay)
        requires
            now.nanos <= self.nanos,
        ensures
            delay.total_nanos() == self.nanos - now.nanos,
            delay.subsec_nanos < NANOS_PER_SEC,
    {
        let nanos: u128 = if now.nanos >= 0 || self.nanos < 0 {
            (self.nanos - now.nanos) as u128
        } else {
            self.nanos as u128 + (-(now.nanos + 1)) as u128 + 1
        };
        Delay { secs: nanos / NANOS_PER_SEC, subsec_nanos: (nanos % NANOS_PER_SEC) as u32 }
    }
}

/// The nanoseconds of a duration. There are fewer than 2^96 of them.
fn duration_nanos(duration: std::time::Duration) -> (nanos: i128)
    ensures
        nanos == nanos_in(duration),
        0 <= nanos < 0x1_0000_0000_0000_0000_0000_0000,
{
    let secs: i128 = duration.as_secs() as i128;
    let subsec_nanos: i128 = duration.subsec_nanos() as i128;
    secs * 1_000_000_000 + subsec_nanos
}

/// A running clock.
#[derive(Debug)]
pub struct Clock {
    origin: std::time::Instant,
}

impl Clock {
    /// The reading at which this clock was started.
    pub closed spec fn origin(&self) -> std::time::Instant {
        self.origin
    }

    /// Whether this clock may read `now`: some reading of the machine's clock
    /// lies that long after the one at which this clock was started.
    pub open spec fn reads(&self, now: Instant) -> bool {
        exists|reading: std::time::Instant|
            now.nanos == #[trigger] nanos_since(self.origin(), reading)
    }

    /// A clock that was started at the reading `origin`.
    pub fn started_at(origin: std::time::Instant) -> (clock: Clock)
        ensures
            clock.origin() == origin,
    {
        Clock { origin }
    }

    /// Starts a clock, at a reading that depends on the machine alone.
    pub fn start() -> Clock {
        Clock::started_at(std::time::Instant::now())
    }

    /// The point in time of `reading`, which may lie before this clock was
    /// started.
    pub fn instant_of(&self, reading: std::time::Instant) -> (instant: Instant)
        ensures
            instant.nanos == nanos_since(self.origin(), reading),
    {
        let after = duration_nanos(reading.saturating_duration_since(self.origin));
        let before = duration_nanos(self.origin.saturating_duration_since(reading));
        Instant { nanos: after - before }
    }

    /// Reads the clock: gives the time since it was started, at a reading that
    /// depends on the machine alone. Every caller in this crate is proved for
    /// any reading.
    pub fn now(&self) -> (now: Instant)
        ensures
            self.reads(now),
    {
        self.instant_of(std::time::Instant::now())
    }
}

} // verus!
