//! Monotonic time: readings of a clock that never runs backwards, and the
//! whole seconds that lie between two of them.

use vstd::prelude::*;
use std::time::{Duration, Instant};

verus! {

/// Nanoseconds in one second.
pub const NANOS_PER_SEC: u32 = 1_000_000_000;

/// `std::time::Instant`, a reading of the operating system's monotonic clock.
#[verifier::external_type_specification]
#[verifier::external_body]
pub struct ExInstant(Instant);

/// `Instant::now` reads the monotonic clock. Nothing is promised of the
/// reading.
pub assume_specification[ Instant::now ]() -> Instant;

/// `Instant::elapsed` is the time that has passed since the reading was
/// taken. Nothing is promised of it.
pub assume_specification[ Instant::elapsed ](instant: &Instant) -> Duration;

/// `Duration::as_secs` is the number of whole seconds in the duration.
pub assume_specification[ Duration::as_secs ](duration: &Duration) -> u64;

/// `Duration::subsec_nanos` is the fractional part of the duration in
/// nanoseconds, which is always less than one second.
pub assume_specification[ Duration::subsec_nanos ](duration: &Duration) -> (nanos: u32)
    ensures
        nanos < NANOS_PER_SEC,
;

/// Whole seconds between the reading `earlier` and the reading `later`, both
/// in nanoseconds on one timeline. A `later` that lies before `earlier`
/// counts as no time passed.
pub open spec fn whole_seconds_between(earlier: nat, later: nat) -> nat {
    if later >= earlier {
        ((later - earlier) / (NANOS_PER_SEC as int)) as nat
    } else {
        0
    }
}

/// A point on a monotonic timeline, held as whole seconds and a fraction of
/// a second since the timeline's origin.
#[derive(Debug, Clone, Copy, PartialEq, Eq)]
pub struct Timestamp {
    secs: u64,
    subsec_nanos: u32,
}

impl View for Timestamp {
    type V = nat;

    /// Nanoseconds since the origin of the timeline.
    closed spec fn view(&self) -> nat {
        (self.secs as nat) * (NANOS_PER_SEC as nat) + (self.subsec_nanos as nat)
    }
}

impl Timestamp {
    #[verifier::type_invariant]
    closed spec fn well_formed(&self) -> bool {
        self.subsec_nanos < NANOS_PER_SEC
    }

    /// The point `secs` whole seconds and `subsec_nanos` nanoseconds after
    /// the origin, or `None` where `subsec_nanos` is a second or more.
    pub fn new(secs: u64, subsec_nanos: u32) -> (timestamp: Option<Timestamp>)
        ensures
            timestamp is Some <==> subsec_nanos < NANOS_PER_SEC,
            timestamp matches Some(t) ==> t@ == secs * NANOS_PER_SEC + subsec_nanos,
    {
        if subsec_nanos < NANOS_PER_SEC {
            Some(Timestamp { secs, subsec_nanos })
        } else {
            None
        }
    }

    /// The origin of the timeline.
    pub fn origin() -> (timestamp: Timestamp)
        ensures
            timestamp@ == 0,
    {
        Timestamp { secs: 0, subsec_nanos: 0 }
    }

    /// Whole seconds since the origin.
    pub fn secs(&self) -> (secs: u64)
        ensures
            secs == self@ / (NANOS_PER_SEC as nat),
    {
        proof {
            use_type_invariant(self);
            lemma_split(self.secs as int, self.subsec_nanos as int);
        }
        self.secs
    }

    /// Nanoseconds past the last whole second.
    pub fn subsec_nanos(&self) -> (nanos: u32)
        ensures
            nanos == self@ % (NANOS_PER_SEC as nat),
    {
        proof {
            use_type_invariant(self);
            lemma_split(self.secs as int, self.subsec_nanos as int);
        }
        self.subsec_nanos
    }

    /// Whole seconds that have passed at `self` since `earlier`; zero where
    /// `self` lies before `earlier`.
    pub fn whole_seconds_since(&self, earlier: &Timestamp) -> (secs: u64)
        ensures
            secs == whole_seconds_between(earlier@, self@),
    {
        proof {
            use_type_invariant(self);
            use_type_invariant(earlier);
        }
        if self.secs < earlier.secs || (self.secs == earlier.secs && self.subsec_nanos
            < earlier.subsec_nanos) {
            proof {
                lemma_order(
                    self.secs as int,
                    self.subsec_nanos as int,
                    earlier.secs as int,
                    earlier.subsec_nanos as int,
                );
            }
            0
        } else if self.subsec_nanos >= earlier.subsec_nanos {
            proof {
                lemma_split(
                    self.secs - earlier.secs,
                    self.subsec_nanos - earlier.subsec_nanos,
                );
                lemma_distribute(self.secs as int, earlier.secs as int);
            }
            self.secs - earlier.secs
        } else {
            proof {
                lemma_split(
                    self.secs - earlier.secs - 1,
                    NANOS_PER_SEC + self.subsec_nanos - earlier.subsec_nanos,
                );
                lemma_distribute(self.secs as int, earlier.secs as int + 1);
            }
            self.secs - earlier.secs - 1
        }
    }
}

/// A number made of `whole` seconds and a `part` of less than a second
/// divides back into the two.
proof fn lemma_split(whole: int, part: int)
    requires
        0 <= whole,
        0 <= part < NANOS_PER_SEC,
    ensures
        (whole * NANOS_PER_SEC + part) / (NANOS_PER_SEC as int) == whole,
        (whole * NANOS_PER_SEC + part) % (NANOS_PER_SEC as int) == part,
{
    vstd::arithmetic::div_mod::lemma_fundamental_div_mod_converse(
        whole * NANOS_PER_SEC + part,
        NANOS_PER_SEC as int,
        whole,
        part,
    );
}

/// Whole seconds scale over a difference.
proof fn lemma_distribute(a: int, b: int)
    ensures
        (a - b) * NANOS_PER_SEC == a * NANOS_PER_SEC - b * NANOS_PER_SEC,
{
    assert((a - b) * NANOS_PER_SEC == a * NANOS_PER_SEC - b * NANOS_PER_SEC)
        by (nonlinear_arith);
}

/// A reading with fewer whole seconds, or as many and a smaller fraction,
/// lies earlier on the timeline.
proof fn lemma_order(secs: int, nanos: int, other_secs: int, other_nanos: int)
    requires
        0 <= secs,
        0 <= other_secs,
        0 <= nanos < NANOS_PER_SEC,
        0 <= other_nanos < NANOS_PER_SEC,
        secs < other_secs || (secs == other_secs && nanos < other_nanos),
    ensures
        secs * NANOS_PER_SEC + nanos < other_secs * NANOS_PER_SEC + other_nanos,
{
    if secs < other_secs {
        assert((secs + 1) * NANOS_PER_SEC <= other_secs * NANOS_PER_SEC) by (nonlinear_arith)
            requires
                secs + 1 <= other_secs,
        ;
        lemma_distribute(secs, -1);
    }
}

/// Uptime never decreases: of two readings taken after the same start, the
/// later one shows at least as many whole seconds as the earlier one.
pub proof fn lemma_uptime_monotonic(started_at: nat, first: nat, second: nat)
    requires
        first <= second,
    ensures
        whole_seconds_between(started_at, first) <= whole_seconds_between(started_at, second),
{
    if first >= started_at {
        vstd::arithmetic::div_mod::lemma_div_is_ordered(
            first - started_at,
            second - started_at,
            NANOS_PER_SEC as int,
        );
    }
}

/// At the very reading at which the server started, no whole second has
/// passed.
pub proof fn lemma_uptime_starts_at_zero(started_at: nat)
    ensures
        whole_seconds_between(started_at, started_at) == 0,
{
}

/// After waiting at least `n` seconds, at least `n` whole seconds have
/// passed; after waiting exactly `n` seconds, exactly `n`.
pub proof fn lemma_uptime_after_waiting(started_at: nat, now: nat, n: nat)
    requires
        now >= started_at + n * NANOS_PER_SEC,
    ensures
        whole_seconds_between(started_at, now) >= n,
        now == started_at + n * NANOS_PER_SEC ==> whole_seconds_between(started_at, now) == n,
{
    lemma_split(n as int, 0);
    vstd::arithmetic::div_mod::lemma_div_is_ordered(
        n * NANOS_PER_SEC,
        now - started_at,
        NANOS_PER_SEC as int,
    );
}

/// A monotonic clock: readings are measured from the moment it was started.
#[derive(Debug, Clone, Copy)]
pub struct MonotonicClock {
    origin: Instant,
}

impl MonotonicClock {
    /// Starts a clock whose origin is the present moment.
    ///
    /// The origin is whatever the system's monotonic clock shows, so
    /// nothing is promised of it.
    pub fn start() -> (clock: MonotonicClock) {
        MonotonicClock { origin: Instant::now() }
    }

    /// The present moment on this clock's timeline: the time that has
    /// passed since the origin, in whole seconds and the fraction of a
    /// second beyond them.
    ///
    /// How much time has passed is for the system's monotonic clock to say,
    /// so nothing is promised of the reading itself. What follows from a
    /// reading is stated where one is taken as an argument, as in
    /// [`Timestamp::whole_seconds_since`].
    pub fn now(&self) -> (timestamp: Timestamp) {
        let elapsed = self.origin.elapsed();
        Timestamp { secs: elapsed.as_secs(), subsec_nanos: elapsed.subsec_nanos() }
    }
}

} // verus!
