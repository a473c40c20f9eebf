//! Version stamps of resources.

use vstd::prelude::*;
use vstd::string::*;
use crate::text::{decimal, decimal_text};

verus! {

/// A point in time as seconds and nanoseconds: the version stamp of a
/// resource. A later change carries a later stamp.
#[derive(Clone, Copy, Debug, PartialEq, Eq, Structural)]
pub struct TaiTime {
    pub seconds: u64,
    pub nanoseconds: u32,
}

/// A reading of the system clock, as the standard library holds it.
#[verifier::external_type_specification]
#[verifier::external_body]
pub struct ExSystemTime(std::time::SystemTime);

/// Calls `std::time::SystemTime::now`. The result depends on the clock, so
/// the contract says nothing of it.
#[verifier::external_body]
fn read_clock() -> (r: std::time::SystemTime) {
    std::time::SystemTime::now()
}

/// Calls `std::time::SystemTime::duration_since` with the Unix epoch: the
/// time that has passed since the epoch, `None` where the reading lies
/// before it. Nothing is claimed of the result.
#[verifier::external_body]
fn since_epoch(reading: &std::time::SystemTime) -> (r: Option<std::time::Duration>) {
    match reading.duration_since(std::time::UNIX_EPOCH) {
        Ok(d) => Some(d),
        Err(_) => None,
    }
}

/// Calls `std::time::Duration::as_secs`: the whole seconds of a duration.
/// Nothing is claimed of the result.
#[verifier::external_body]
fn whole_seconds(duration: &std::time::Duration) -> (r: u64) {
    duration.as_secs()
}

/// Calls `std::time::Duration::subsec_nanos`: the part of a duration below
/// one second, in nanoseconds. The contract claims what the documentation
/// says of every duration: the result stays below one second.
#[verifier::external_body]
fn nanoseconds_within(duration: &std::time::Duration) -> (r: u32)
    ensures
        r < 1_000_000_000,
{
    duration.subsec_nanos()
}

impl TaiTime {
    /// The stamp as text: `<seconds>:<nanoseconds>`, both in decimal.
    pub open spec fn text(self) -> Seq<char> {
        decimal(self.seconds as nat) + seq![':'] + decimal(self.nanoseconds as nat)
    }

    /// Whether `self` is strictly earlier than `other`.
    pub open spec fn before(self, other: TaiTime) -> bool {
        self.seconds < other.seconds || (self.seconds == other.seconds && self.nanoseconds
            < other.nanoseconds)
    }

    pub fn new(seconds: u64, nanoseconds: u32) -> (r: TaiTime)
        ensures
            r == (TaiTime { seconds, nanoseconds }),
    {
        TaiTime { seconds, nanoseconds }
    }

    /// The stamp that a reading of the clock makes: the seconds and
    /// nanoseconds that were read, or the stamp of the epoch where the clock
    /// stood before the epoch and nothing could be read.
    pub open spec fn of_reading(reading: Option<(u64, u32)>) -> TaiTime {
        match reading {
            Some((seconds, nanoseconds)) => TaiTime { seconds, nanoseconds },
            None => TaiTime { seconds: 0, nanoseconds: 0 },
        }
    }

    /// The stamp that a reading of the clock makes.
    pub fn from_reading(reading: Option<(u64, u32)>) -> (r: TaiTime)
        ensures
            r == Self::of_reading(reading),
    {
        match reading {
            Some((seconds, nanoseconds)) => TaiTime { seconds, nanoseconds },
            None => TaiTime { seconds: 0, nanoseconds: 0 },
        }
    }

    /// The stamp of this moment, as the system clock gives it; the stamp of
    /// the epoch where the clock stands before the epoch. What the clock
    /// gives is not known beforehand: whatever it gives, the nanoseconds
    /// stay below one second.
    pub fn now() -> (r: TaiTime)
        ensures
            r.nanoseconds < 1_000_000_000,
    {
        let clock = read_clock();
        let reading = match since_epoch(&clock) {
            Some(passed) => Some((whole_seconds(&passed), nanoseconds_within(&passed))),
            None => None,
        };
        Self::from_reading(reading)
    }

    /// Whether `self` is strictly earlier than `other`.
    pub fn is_before(&self, other: &TaiTime) -> (r: bool)
        ensures
            r == self.before(*other),
    {
        self.seconds < other.seconds || (self.seconds == other.seconds && self.nanoseconds
            < other.nanoseconds)
    }

    /// Writes the stamp as `<seconds>:<nanoseconds>`.
    pub fn to_text(&self) -> (r: String)
        ensures
            r@ == self.text(),
    {
        proof {
            reveal_strlit(":");
        }
        let mut r = decimal_text(self.seconds);
        r.append(":");
        let nanos = decimal_text(self.nanoseconds as u64);
        r.append(nanos.as_str());
        assert(r@ =~= self.text());
        r
    }
}

} // verus!
