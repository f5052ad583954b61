//! Points in time, counted in whole minutes.

use vstd::prelude::*;

verus! {

/// The earliest minute an `Instant` can hold: midnight of 1 January of the
/// year -262143.
pub const MIN_MINUTES: i64 = -138_910_020_480;

/// The latest minute an `Instant` can hold: 23:59 of 31 December of the year
/// 262142.
pub const MAX_MINUTES: i64 = 136_837_781_279;

/// The Unix timestamp, in seconds, of the first second of `MIN_MINUTES`.
pub const MIN_TIMESTAMP: i64 = -8_334_601_228_800;

/// The Unix timestamp, in seconds, of the last second of `MAX_MINUTES`.
pub const MAX_TIMESTAMP: i64 = 8_210_266_876_799;

/// The minute `n` minutes after `minutes`, or the last minute an `Instant` can
/// hold where that would lie beyond it.
pub open spec fn minutes_after(minutes: int, n: int) -> int {
    if minutes + n <= MAX_MINUTES {
        minutes + n
    } else {
        MAX_MINUTES as int
    }
}

/// A point in time with the precision of a minute and no time zone of its
/// own: the number of whole minutes since 1970-01-01 00:00.
#[derive(Debug, Clone, Copy, PartialEq, Eq, Structural, PartialOrd, Ord, Hash)]
pub struct Instant {
    minutes: i64,
}

impl View for Instant {
    type V = int;

    /// Minutes since 1970-01-01 00:00.
    closed spec fn view(&self) -> int {
        self.minutes as int
    }
}

/// Two instants are the same exactly if they are the same minute.
pub proof fn lemma_instant_is_its_minute(a: Instant, b: Instant)
    ensures
        a == b <==> a@ == b@,
{
}

impl Instant {
    /// Every instant lies between `MIN_MINUTES` and `MAX_MINUTES`.
    #[verifier::type_invariant]
    pub open spec fn in_range(self) -> bool {
        MIN_MINUTES <= self@ <= MAX_MINUTES
    }

    /// The instant `minutes` after 1970-01-01 00:00, if there is one.
    pub fn from_minutes(minutes: i64) -> (r: Option<Instant>)
        ensures
            r is Some <==> MIN_MINUTES <= minutes <= MAX_MINUTES,
            r matches Some(t) ==> t@ == minutes && t.in_range(),
    {
        if MIN_MINUTES <= minutes && minutes <= MAX_MINUTES {
            Some(Instant::at_minutes(minutes))
        } else {
            None
        }
    }

    /// The instant `minutes` after 1970-01-01 00:00.
    pub(crate) fn at_minutes(minutes: i64) -> (t: Instant)
        requires
            MIN_MINUTES <= minutes <= MAX_MINUTES,
        ensures
            t@ == minutes,
            t.in_range(),
    {
        Instant { minutes }
    }

    /// The minute that holds the second `seconds` after 1970-01-01 00:00:00.
    pub(crate) fn at_timestamp(seconds: i64) -> (t: Instant)
        requires
            MIN_TIMESTAMP <= seconds <= MAX_TIMESTAMP,
        ensures
            t@ == seconds as int / 60,
            t.in_range(),
    {
        let shifted: u64 = (seconds - MIN_TIMESTAMP) as u64;
        Instant { minutes: (shifted / 60) as i64 + MIN_MINUTES }
    }

    /// Minutes since 1970-01-01 00:00.
    pub fn minutes(&self) -> (m: i64)
        ensures
            m == self@,
            MIN_MINUTES <= m <= MAX_MINUTES,
    {
        proof {
            use_type_invariant(self);
        }
        self.minutes
    }

    /// The minute that holds the second `seconds` after 1970-01-01 00:00:00,
    /// if an instant can hold it.
    pub fn from_timestamp(seconds: i64) -> (r: Option<Instant>)
        ensures
            r is Some <==> MIN_TIMESTAMP <= seconds <= MAX_TIMESTAMP,
            r matches Some(t) ==> t@ == seconds as int / 60 && t.in_range(),
    {
        if MIN_TIMESTAMP <= seconds && seconds <= MAX_TIMESTAMP {
            Some(Instant::at_timestamp(seconds))
        } else {
            None
        }
    }

    /// The Unix timestamp, in seconds, of the first second of this minute.
    pub fn timestamp(&self) -> (seconds: i64)
        ensures
            seconds == self@ * 60,
            MIN_TIMESTAMP <= seconds <= MAX_TIMESTAMP,
    {
        proof {
            use_type_invariant(self);
        }
        self.minutes * 60
    }

    /// The instant `n` minutes after this one, or the last instant there is
    /// where that would lie beyond it.
    pub fn plus_minutes(&self, n: u32) -> (r: Instant)
        ensures
            r@ == minutes_after(self@, n as int),
            r.in_range(),
    {
        proof {
            use_type_invariant(self);
        }
        let sum: i64 = self.minutes + n as i64;
        if sum <= MAX_MINUTES {
            Instant { minutes: sum }
        } else {
            Instant { minutes: MAX_MINUTES }
        }
    }
}

} // verus!
