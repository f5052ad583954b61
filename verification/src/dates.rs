//! Requested periods: reading the dates, keeping them within what the
//! provider knows, and cutting the period into windows it accepts.

use vstd::prelude::*;

use crate::calendar::{
    date_text_timestamp, datetime_text_timestamp, format_timestamp, local_now_timestamp,
    parse_date_text, parse_datetime_text, timestamp_of_year_start, timestamp_text, timestamp_year,
    year_of_timestamp, year_start_timestamp, MAX_YEAR,
};
use crate::error::ApiError;
use crate::instant::{Instant, MAX_MINUTES};

verus! {

/// The provider's first half hour: 2018-05-10 23:30, in minutes since
/// 1970-01-01 00:00.
pub const OLDEST_VALID_MINUTES: i64 = 25_433_250;

/// The longest a window may be: thirteen days, in minutes.
pub const WINDOW_MINUTES: i64 = 18_720;

/// The minute that `text` names: midnight where it is a date `YYYY-MM-DD`,
/// else the time it gives as `YYYY-MM-DDThh:mmZ`, else nothing.
pub open spec fn text_minutes(text: Seq<char>) -> Option<int> {
    match date_text_timestamp(text) {
        Some(seconds) => Some(seconds / 60),
        None => match datetime_text_timestamp(text) {
            Some(seconds) => Some(seconds / 60),
            None => None,
        },
    }
}

/// Reads a date: first as `YYYY-MM-DD`, which stands for midnight, then as
/// `YYYY-MM-DDThh:mmZ`. The error is that of the second reading.
pub fn parse_date(date: &str) -> (r: Result<Instant, chrono::ParseError>)
    ensures
        r is Ok <==> text_minutes(date@) is Some,
        r matches Ok(t) ==> text_minutes(date@) == Some(t@) && t.in_range(),
{
    if let Ok(seconds) = parse_date_text(date) {
        return Ok(Instant::at_timestamp(seconds));
    }
    match parse_datetime_text(date) {
        Ok(seconds) => Ok(Instant::at_timestamp(seconds)),
        Err(error) => Err(error),
    }
}

/// The text `YYYY-MM-DDThh:mmZ` of the minute `minutes`.
pub open spec fn minute_text(minutes: int) -> Seq<char> {
    timestamp_text(minutes * 60)
}

/// Writes `t` as `YYYY-MM-DDThh:mmZ`, the form in which the provider takes
/// the ends of a window.
///
/// Reading the text again as a date gives `t` back.
pub fn format_date(t: Instant) -> (text: String)
    ensures
        text@ == minute_text(t@),
        text_minutes(text@) == Some(t@),
{
    format_timestamp(t.timestamp())
}

/// The span of time for which the provider has data.
#[derive(Debug, Clone, Copy, PartialEq, Eq, Structural)]
pub struct ValidityBounds {
    /// The provider has nothing from before this instant.
    pub oldest: Instant,
    /// The provider has nothing from after this instant.
    pub now: Instant,
}

impl ValidityBounds {
    /// The minute that stands for `minutes` within the bounds: `oldest` for
    /// any earlier one, else `now` for any later one, else `minutes` itself.
    pub open spec fn clamped(self, minutes: int) -> int {
        if minutes < self.oldest@ {
            self.oldest@
        } else if minutes > self.now@ {
            self.now@
        } else {
            minutes
        }
    }

    /// Whether the bounds start at the provider's first half hour and end
    /// at an instant that exists.
    pub open spec fn starts_at_oldest(self) -> bool {
        self.oldest@ == OLDEST_VALID_MINUTES && self.now.in_range()
    }

    /// Bounds that reach from the provider's first half hour to `now`.
    pub fn since_oldest(now: Instant) -> (bounds: ValidityBounds)
        ensures
            bounds.oldest@ == OLDEST_VALID_MINUTES,
            bounds.oldest.in_range(),
            bounds.now == now,
    {
        ValidityBounds { oldest: oldest_valid_date(), now }
    }

    /// Bounds that reach from the provider's first half hour to the present
    /// minute of the local clock.
    pub fn current() -> (bounds: ValidityBounds)
        ensures
            bounds.starts_at_oldest(),
    {
        ValidityBounds::since_oldest(current_instant())
    }

    /// Brings `date` within the bounds: a date before `oldest` becomes
    /// `oldest`, any other date after `now` becomes `now`, and a date between
    /// them stays as it is.
    pub fn clamp(&self, date: Instant) -> (r: Instant)
        ensures
            r@ == self.clamped(date@),
            r == date || r == self.oldest || r == self.now,
    {
        if date.minutes() < self.oldest.minutes() {
            self.oldest
        } else if date.minutes() > self.now.minutes() {
            self.now
        } else {
            date
        }
    }
}

/// The first minute of the calendar year after the one that holds `minutes`.
/// After the last year there is, this is the minute after the last instant.
pub open spec fn next_year_start(minutes: int) -> int {
    let year = timestamp_year(minutes * 60);
    if year < MAX_YEAR {
        year_start_timestamp(year + 1) / 60
    } else {
        MAX_MINUTES + 1
    }
}

/// Where a window that starts at `current` ends unless the period ends
/// first: thirteen days later, or at the start of the next calendar year if
/// that comes no later.
pub open spec fn candidate_end(current: int) -> int {
    if current + WINDOW_MINUTES >= next_year_start(current) {
        next_year_start(current)
    } else {
        current + WINDOW_MINUTES
    }
}

/// The start of the window at `i`, in minutes.
pub open spec fn from_of(windows: Seq<(Instant, Instant)>, i: int) -> int {
    windows[i].0@
}

/// The end of the window at `i`, in minutes.
pub open spec fn to_of(windows: Seq<(Instant, Instant)>, i: int) -> int {
    windows[i].1@
}

/// Whether `windows` is the period from `start` to `end` cut greedily from
/// the front: the first window starts at `start`; every window but the last
/// ends at its candidate end, which lies after its own start and before
/// `end`, and the next window starts there; the last window ends at `end`,
/// which its candidate end reaches or passes.
pub open spec fn is_split(windows: Seq<(Instant, Instant)>, start: int, end: int) -> bool {
    &&& windows.len() > 0
    &&& from_of(windows, 0) == start
    &&& to_of(windows, windows.len() - 1) == end
    &&& candidate_end(from_of(windows, windows.len() - 1)) >= end
    &&& forall|i: int|
        0 <= i < windows.len() - 1 ==> {
            &&& #[trigger] to_of(windows, i) == candidate_end(from_of(windows, i))
            &&& from_of(windows, i) < to_of(windows, i) < end
            &&& from_of(windows, i + 1) == to_of(windows, i)
        }
}

/// What `split_range` holds of the windows it has cut so far, with the next
/// window to start at `current`.
spec fn is_cut_so_far(windows: Seq<(Instant, Instant)>, start: int, end: int, current: int) -> bool {
    &&& if windows.len() == 0 {
        current == start
    } else {
        from_of(windows, 0) == start && to_of(windows, windows.len() - 1) == current
    }
    &&& forall|i: int|
        0 <= i < windows.len() ==> {
            &&& #[trigger] to_of(windows, i) == candidate_end(from_of(windows, i))
            &&& from_of(windows, i) < to_of(windows, i) < end
        }
    &&& forall|i: int|
        0 <= i < windows.len() - 1 ==> from_of(windows, i + 1) == #[trigger] to_of(windows, i)
}

/// The candidate end of a window that starts at `current`, in minutes. It
/// lies after `current`, by thirteen days at most.
fn candidate_end_of(current: Instant) -> (candidate: i64)
    ensures
        candidate == candidate_end(current@),
        current@ < candidate <= current@ + WINDOW_MINUTES,
{
    let next_end = current.minutes() + WINDOW_MINUTES;
    let year = year_of_timestamp(current.timestamp());
    let new_year = if year < MAX_YEAR {
        Instant::at_timestamp(timestamp_of_year_start(year + 1)).minutes()
    } else {
        MAX_MINUTES + 1
    };
    if next_end >= new_year {
        new_year
    } else {
        next_end
    }
}

/// Cuts the period from `start` to `end` into windows that the provider
/// accepts, greedily from the front: each window is thirteen days long, or
/// ends at the start of the next calendar year, or ends the period.
///
/// A period that ends before it starts is not refused: it comes back as one
/// window that runs from `start` back to `end`.
pub fn split_range(start: Instant, end: Instant) -> (windows: Vec<(Instant, Instant)>)
    ensures
        is_split(windows@, start@, end@),
{
    let mut ranges: Vec<(Instant, Instant)> = Vec::new();
    let mut current = start;
    loop
        invariant
            is_cut_so_far(ranges@, start@, end@, current@),
        decreases end@ - current@,
    {
        let candidate = candidate_end_of(current);
        let ghost cut = ranges@;
        if candidate >= end.minutes() {
            ranges.push((current, end));
            proof {
                let windows = ranges@;
                assert forall|i: int| 0 <= i < windows.len() - 1 implies {
                    &&& #[trigger] to_of(windows, i) == candidate_end(from_of(windows, i))
                    &&& from_of(windows, i) < to_of(windows, i) < end@
                    &&& from_of(windows, i + 1) == to_of(windows, i)
                } by {
                    assert(to_of(windows, i) == to_of(cut, i));
                }
            }
            return ranges;
        }
        proof {
            use_type_invariant(current);
            use_type_invariant(end);
        }
        let next_end = Instant::at_minutes(candidate);
        ranges.push((current, next_end));
        proof {
            let windows = ranges@;
            assert forall|i: int| 0 <= i < windows.len() implies {
                &&& #[trigger] to_of(windows, i) == candidate_end(from_of(windows, i))
                &&& from_of(windows, i) < to_of(windows, i) < end@
            } by {
                if i < cut.len() {
                    assert(to_of(windows, i) == to_of(cut, i));
                }
            }
            assert forall|i: int| 0 <= i < windows.len() - 1 implies from_of(windows, i + 1)
                == #[trigger] to_of(windows, i) by {
                assert(to_of(windows, i) == to_of(cut, i));
            }
        }
        current = next_end;
    }
}

/// Whether the minute `t` lies in one of `windows`, ends included.
pub open spec fn covers(windows: Seq<(Instant, Instant)>, t: int) -> bool {
    exists|i: int|
        0 <= i < windows.len() && from_of(windows, i) <= t && t <= #[trigger] to_of(windows, i)
}

proof fn lemma_split_ordered(windows: Seq<(Instant, Instant)>, start: int, end: int, i: int, j: int)
    requires
        is_split(windows, start, end),
        start <= end,
        0 <= i <= j < windows.len(),
    ensures
        from_of(windows, i) <= from_of(windows, j),
        from_of(windows, j) <= to_of(windows, j),
        i < j ==> to_of(windows, i) <= from_of(windows, j),
    decreases j - i,
{
    if j == windows.len() - 1 && j > 0 {
        assert(to_of(windows, j - 1) < end);
    }
    if i < j {
        assert(from_of(windows, i) < to_of(windows, i));
        lemma_split_ordered(windows, start, end, i + 1, j);
    }
}

proof fn lemma_split_reaches(windows: Seq<(Instant, Instant)>, start: int, end: int, k: int, t: int)
    requires
        is_split(windows, start, end),
        0 <= k < windows.len(),
        start <= t <= to_of(windows, k),
    ensures
        covers(windows, t),
    decreases k,
{
    if t < from_of(windows, k) {
        lemma_split_reaches(windows, start, end, k - 1, t);
    }
}

/// The windows of a split lie end to end over the whole period, and each is
/// one that the provider accepts.
///
/// For a period that does not end before it starts: every window runs
/// forward, is at most thirteen days long and ends no later than the first
/// minute of the calendar year after the one it starts in; each window starts
/// where the one before it ends, so that no two share more than that minute;
/// and a minute lies in some window exactly if it lies in the period.
pub proof fn lemma_split_covers_period(windows: Seq<(Instant, Instant)>, start: int, end: int)
    requires
        is_split(windows, start, end),
        start <= end,
    ensures
        forall|i: int|
            0 <= i < windows.len() ==> {
                &&& from_of(windows, i) <= #[trigger] to_of(windows, i)
                &&& to_of(windows, i) - from_of(windows, i) <= WINDOW_MINUTES
                &&& to_of(windows, i) <= next_year_start(from_of(windows, i))
            },
        forall|i: int|
            0 <= i < windows.len() - 1 ==> #[trigger] to_of(windows, i) == from_of(windows, i + 1),
        forall|i: int, j: int|
            0 <= i < j < windows.len() ==> #[trigger] to_of(windows, i) <= #[trigger] from_of(
                windows,
                j,
            ),
        forall|t: int| start <= t <= end <==> #[trigger] covers(windows, t),
{
    let last = windows.len() - 1;
    assert forall|i: int| 0 <= i < windows.len() implies {
        &&& from_of(windows, i) <= #[trigger] to_of(windows, i)
        &&& to_of(windows, i) - from_of(windows, i) <= WINDOW_MINUTES
        &&& to_of(windows, i) <= next_year_start(from_of(windows, i))
    } by {
        lemma_split_ordered(windows, start, end, i, i);
    }
    assert forall|i: int, j: int| 0 <= i < j < windows.len() implies #[trigger] to_of(windows, i)
        <= #[trigger] from_of(windows, j) by {
        lemma_split_ordered(windows, start, end, i, j);
    }
    assert forall|t: int| start <= t <= end <==> #[trigger] covers(windows, t) by {
        if start <= t <= end {
            lemma_split_reaches(windows, start, end, last, t);
        }
        if covers(windows, t) {
            let i = choose|i: int|
                0 <= i < windows.len() && from_of(windows, i) <= t && t <= #[trigger] to_of(
                    windows,
                    i,
                );
            lemma_split_ordered(windows, start, end, 0, i);
        }
    }
}

proof fn lemma_split_agrees(
    a: Seq<(Instant, Instant)>,
    b: Seq<(Instant, Instant)>,
    start: int,
    end: int,
    i: int,
)
    requires
        is_split(a, start, end),
        is_split(b, start, end),
        0 <= i < a.len(),
    ensures
        i < b.len(),
        from_of(a, i) == from_of(b, i),
        to_of(a, i) == to_of(b, i),
        i == a.len() - 1 <==> i == b.len() - 1,
    decreases i,
{
    if i > 0 {
        lemma_split_agrees(a, b, start, end, i - 1);
    }
}

/// A period has one split only: two lists of windows that are both the
/// greedy split of the same period have the same length and, place by
/// place, the same starts and ends.
pub proof fn lemma_split_is_unique(
    a: Seq<(Instant, Instant)>,
    b: Seq<(Instant, Instant)>,
    start: int,
    end: int,
)
    requires
        is_split(a, start, end),
        is_split(b, start, end),
    ensures
        a.len() == b.len(),
        forall|i: int|
            #![trigger from_of(a, i)]
            #![trigger to_of(a, i)]
            0 <= i < a.len() ==> from_of(a, i) == from_of(b, i) && to_of(a, i) == to_of(b, i),
{
    lemma_split_agrees(a, b, start, end, a.len() - 1);
    lemma_split_agrees(b, a, start, end, b.len() - 1);
    assert forall|i: int|
        #![trigger from_of(a, i)]
        #![trigger to_of(a, i)]
        0 <= i < a.len() implies from_of(a, i) == from_of(b, i) && to_of(a, i) == to_of(b, i) by {
        lemma_split_agrees(a, b, start, end, i);
    }
}

/// The windows of a split within bounds lie within the bounds.
///
/// Where `oldest` is not after `now`, a date brought within the bounds lies
/// between them, and so does every start and end of the split of a period
/// between two such dates that does not end before it starts.
pub proof fn lemma_split_within_bounds(
    windows: Seq<(Instant, Instant)>,
    bounds: ValidityBounds,
    first: int,
    last: int,
)
    requires
        bounds.oldest@ <= bounds.now@,
        bounds.clamped(first) <= bounds.clamped(last),
        is_split(windows, bounds.clamped(first), bounds.clamped(last)),
    ensures
        bounds.oldest@ <= bounds.clamped(first) <= bounds.now@,
        bounds.oldest@ <= bounds.clamped(last) <= bounds.now@,
        forall|i: int|
            #![trigger from_of(windows, i)]
            #![trigger to_of(windows, i)]
            0 <= i < windows.len() ==> bounds.oldest@ <= from_of(windows, i) && to_of(windows, i)
                <= bounds.now@,
{
    let start = bounds.clamped(first);
    let end = bounds.clamped(last);
    lemma_split_covers_period(windows, start, end);
    assert forall|i: int|
        #![trigger from_of(windows, i)]
        #![trigger to_of(windows, i)]
        0 <= i < windows.len() implies bounds.oldest@ <= from_of(windows, i) && to_of(windows, i)
        <= bounds.now@ by {
        assert(covers(windows, to_of(windows, i)));
        assert(covers(windows, from_of(windows, i)));
    }
}

/// Whether `r` is what splitting the period from the date `start` to the date
/// `end` within `bounds` gives.
///
/// A `start` that is no date gives `ApiError::DateParseError`, and so does
/// an `end` that is given and is no date. Otherwise the period runs from
/// `start` to `end`, or to `bounds.now` where no `end` is given, both brought
/// within the bounds, and `r` holds its greedy split.
pub open spec fn is_split_outcome(
    start: &str,
    end: Option<&str>,
    bounds: ValidityBounds,
    r: Result<Vec<(Instant, Instant)>, ApiError>,
) -> bool {
    let end_minutes = match end {
        Some(text) => text_minutes(text@),
        None => Some(bounds.now@),
    };
    match (text_minutes(start@), end_minutes) {
        (Some(first), Some(last)) => r matches Ok(windows) && is_split(
            windows@,
            bounds.clamped(first),
            bounds.clamped(last),
        ),
        _ => r matches Err(error) && error is DateParseError,
    }
}

/// Splits the period from the date `start` to the date `end`, or to
/// `bounds.now` where `end` is `None`, into windows that the provider accepts.
///
/// Both dates are read as `parse_date` reads them and brought within `bounds`
/// before the period is cut as `split_range` cuts it.
pub fn split(start: &str, end: Option<&str>, bounds: &ValidityBounds) -> (r: Result<
    Vec<(Instant, Instant)>,
    ApiError,
>)
    ensures
        is_split_outcome(start, end, *bounds, r),
{
    let start_date = match parse_date(start) {
        Ok(date) => date,
        Err(error) => {
            return Err(ApiError::DateParseError(error));
        },
    };
    let end_date = match end {
        None => bounds.now,
        Some(text) => match parse_date(text) {
            Ok(date) => date,
            Err(error) => {
                return Err(ApiError::DateParseError(error));
            },
        },
    };
    let start_date = bounds.clamp(start_date);
    let end_date = bounds.clamp(end_date);
    Ok(split_range(start_date, end_date))
}

/// Splits the period from the date `start` to the date `end`, or to the
/// present minute where `end` is `None`, into windows that the provider
/// accepts.
///
/// This is `split` within the bounds that reach from the provider's first
/// half hour to the present minute of the local clock, which is read once.
pub fn normalise_dates(start: &str, end: &Option<&str>) -> (r: Result<
    Vec<(Instant, Instant)>,
    ApiError,
>)
    ensures
        exists|bounds: ValidityBounds|
            bounds.starts_at_oldest() && #[trigger] is_split_outcome(start, *end, bounds, r),
        r is Ok <==> text_minutes(start@) is Some && (*end matches Some(text) ==> text_minutes(
            text@,
        ) is Some),
{
    let bounds = ValidityBounds::current();
    split(start, *end, &bounds)
}

/// The provider's first half hour, 2018-05-10 23:30.
pub fn oldest_valid_date() -> (t: Instant)
    ensures
        t@ == OLDEST_VALID_MINUTES,
        t.in_range(),
{
    Instant::at_minutes(OLDEST_VALID_MINUTES)
}

/// The present minute of the local clock.
pub fn current_instant() -> (t: Instant)
    ensures
        t.in_range(),
{
    Instant::at_timestamp(local_now_timestamp())
}

/// Brings `date` within what the provider knows at the present minute of the
/// local clock: see `ValidityBounds::clamp`.
pub fn validate_date(date: Instant) -> (r: Instant)
    ensures
        exists|bounds: ValidityBounds|
            bounds.starts_at_oldest() && r@ == #[trigger] bounds.clamped(date@),
        date@ < OLDEST_VALID_MINUTES ==> r@ == OLDEST_VALID_MINUTES,
{
    let bounds = ValidityBounds::current();
    bounds.clamp(date)
}

} // verus!
