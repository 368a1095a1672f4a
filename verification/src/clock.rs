//! Points in time, and the reading of the system clock.

use vstd::prelude::*;

verus! {

/// Nanoseconds in a second.
pub const NANOS_PER_SECOND: i128 = 1_000_000_000;

/// Bound, in seconds on either side of the Unix epoch, within which every
/// `Moment` lies.
pub const EPOCH_RANGE: i64 = 0x4_0000_0000_0000;

/// Division that rounds toward zero, for a positive divisor.
pub open spec fn toward_zero(a: int, b: int) -> int {
    if a >= 0 {
        a / b
    } else {
        -((-a) / b)
    }
}

/// The remainder that goes with `toward_zero`: it has the sign of `a`.
pub open spec fn remainder(a: int, b: int) -> int {
    a - b * toward_zero(a, b)
}

/// A point in time: whole seconds since the Unix epoch, and the nanoseconds
/// that have passed since that second began.
#[derive(Clone, Copy, Debug)]
pub struct Moment {
    secs: i64,
    nanos: u32,
}

impl Moment {
    #[verifier::type_invariant]
    spec fn in_range(self) -> bool {
        -EPOCH_RANGE < self.secs < EPOCH_RANGE
    }

    /// Whole seconds since the Unix epoch, as the moment was made.
    pub closed spec fn whole_seconds(self) -> int {
        self.secs as int
    }

    /// Nanoseconds since the start of that second, as the moment was made.
    pub closed spec fn subsec_nanos(self) -> int {
        self.nanos as int
    }

    /// Nanoseconds since the Unix epoch.
    pub closed spec fn epoch_nanos(self) -> int {
        self.secs * NANOS_PER_SECOND + self.nanos
    }

    /// A moment is its whole seconds and the nanoseconds upon them.
    pub proof fn lemma_parts(self)
        ensures
            self.epoch_nanos() == self.whole_seconds() * NANOS_PER_SECOND + self.subsec_nanos(),
            0 <= self.subsec_nanos() < 0x1_0000_0000,
    {
    }

    /// The moment `nanos` nanoseconds after second `secs` of the Unix epoch,
    /// where `secs` lies within `EPOCH_RANGE` of the epoch.
    pub fn new(secs: i64, nanos: u32) -> (moment: Option<Moment>)
        ensures
            moment is Some <==> -EPOCH_RANGE < secs < EPOCH_RANGE,
            moment is Some ==> moment->0.epoch_nanos() == secs * NANOS_PER_SECOND + nanos,
            moment is Some ==> moment->0.whole_seconds() == secs,
            moment is Some ==> moment->0.subsec_nanos() == nanos,
    {
        if -EPOCH_RANGE < secs && secs < EPOCH_RANGE {
            Some(Moment { secs, nanos })
        } else {
            None
        }
    }

    /// Whole seconds since the Unix epoch. They lie within `EPOCH_RANGE` of
    /// the epoch, as those of every moment do.
    pub fn epoch_seconds(&self) -> (secs: i64)
        ensures
            secs == self.whole_seconds(),
            self.epoch_nanos() == secs * NANOS_PER_SECOND + self.subsec_nanos(),
            -EPOCH_RANGE < secs < EPOCH_RANGE,
    {
        proof {
            use_type_invariant(self);
        }
        self.secs
    }

    /// Whole seconds from `earlier` to `self`, rounded toward zero; negative
    /// where `self` is the earlier of the two.
    pub fn seconds_since(&self, earlier: &Moment) -> (seconds: i64)
        ensures
            seconds == toward_zero(
                self.epoch_nanos() - earlier.epoch_nanos(),
                NANOS_PER_SECOND as int,
            ),
    {
        proof {
            use_type_invariant(self);
            use_type_invariant(earlier);
        }
        let whole: i128 = (self.secs as i128) - (earlier.secs as i128);
        let part: i128 = (self.nanos as i128) - (earlier.nanos as i128);
        let nanos: i128 = whole * NANOS_PER_SECOND + part;
        let seconds: i128 = nanos / NANOS_PER_SECOND;
        assert(-0x10_0000_0000_0000 < seconds < 0x10_0000_0000_0000) by (nonlinear_arith)
            requires
                -0x8_0000_0000_0000 < whole < 0x8_0000_0000_0000,
                -0x1_0000_0000 < part < 0x1_0000_0000,
                nanos == whole * 1_000_000_000 + part,
                seconds == toward_zero(nanos as int, 1_000_000_000),
        ;
        seconds as i64
    }
}

/// `chrono::Utc::now`, read as seconds (`DateTime::timestamp`) and nanoseconds
/// (`DateTime::timestamp_subsec_nanos`). Of the time that comes back only this
/// is claimed, which holds of every `DateTime`: `timestamp` computes the
/// seconds from a day number that is an `i32` and the seconds of a day, so
/// they lie within `EPOCH_RANGE` of the epoch. `Utc::now` panics on a system
/// clock set before 1970.
#[verifier::external_body]
fn clock_reading() -> (now: (i64, u32))
    ensures
        -EPOCH_RANGE < now.0 < EPOCH_RANGE,
{
    let now = chrono::Utc::now();
    (now.timestamp(), now.timestamp_subsec_nanos())
}

/// The current moment by the system clock.
pub(crate) fn utc_now() -> (now: Moment) {
    let (secs, nanos) = clock_reading();
    Moment { secs, nanos }
}

/// `chrono::Utc::now` followed by `DateTime::to_rfc3339`: the current time as
/// text. Nothing is claimed of it.
#[verifier::external_body]
pub(crate) fn rfc3339_now() -> (text: String) {
    chrono::Utc::now().to_rfc3339()
}

} // verus!
