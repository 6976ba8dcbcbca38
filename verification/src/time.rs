//! Points in time, counted from the Unix epoch.

use vstd::prelude::*;

verus! {

/// Nanoseconds in one second.
pub const NANOS_PER_SEC: i128 = 1_000_000_000;

/// A point in time (UTC): whole seconds since the Unix epoch and the
/// nanoseconds that follow them.
///
/// Two timestamps are ordered by the instant they denote, see
/// [`Timestamp::instant`]. The nanoseconds are not held below a second: a
/// billion of them, or more, count as the seconds they make up.
#[derive(Clone, Copy, Debug, PartialEq, Eq, Structural)]
pub struct Timestamp {
    pub secs: i64,
    pub nanos: u32,
}

impl Timestamp {
    /// The instant this timestamp denotes, in nanoseconds since the epoch.
    pub open spec fn instant(self) -> int {
        self.secs * 1_000_000_000 + self.nanos
    }

    /// The Unix epoch itself.
    pub fn epoch() -> (t: Timestamp)
        ensures
            t == (Timestamp { secs: 0, nanos: 0 }),
            t.instant() == 0,
    {
        Timestamp { secs: 0, nanos: 0 }
    }

    /// Nanoseconds since the epoch.
    pub fn as_nanos(&self) -> (n: i128)
        ensures
            n == self.instant(),
    {
        let secs: i128 = self.secs as i128;
        let nanos: i128 = self.nanos as i128;
        secs * NANOS_PER_SEC + nanos
    }

    /// Whether this timestamp lies strictly after `other`.
    pub fn is_after(&self, other: &Timestamp) -> (r: bool)
        ensures
            r == (self.instant() > other.instant()),
    {
        self.as_nanos() > other.as_nanos()
    }

    /// Nanoseconds elapsed from `earlier` to this timestamp; negative when
    /// `earlier` is in fact the later of the two.
    pub fn nanos_since(&self, earlier: &Timestamp) -> (d: i128)
        ensures
            d == self.instant() - earlier.instant(),
    {
        self.as_nanos() - earlier.as_nanos()
    }

    /// The current time, read from the system clock by `chrono::Utc::now`.
    ///
    /// Nothing is claimed of the value: the clock may stand still between two
    /// calls, or step backwards. `chrono::Utc::now` panics where the clock
    /// shows a time before the epoch.
    #[verifier::external_body]
    pub(crate) fn now() -> (t: Timestamp) {
        let t = chrono::Utc::now();
        Timestamp { secs: t.timestamp(), nanos: t.timestamp_subsec_nanos() }
    }
}

} // verus!
