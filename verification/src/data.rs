//! What the provider answers, and how the answers for the windows of a
//! period become one list of measurements.

use vstd::prelude::*;

use crate::dates::{parse_date, text_minutes};
use crate::error::ApiError;
use crate::instant::Instant;

verus! {

/// A forecast for one half hour: when the half hour starts, and the
/// forecast carbon intensity.
pub type IntensityForDate = (Instant, i32);

/// The carbon intensity of a half hour.
#[derive(Debug)]
pub struct Intensity {
    /// The forecast intensity.
    pub forecast: i32,
    /// The intensity in words, from "very low" to "very high".
    pub index: String,
}

/// One half hour of the provider's data.
#[derive(Debug)]
pub struct Data {
    /// When the half hour starts, as a date.
    pub from: String,
    /// When the half hour ends, as a date.
    pub to: String,
    /// The carbon intensity of the half hour.
    pub intensity: Intensity,
}

/// The provider's data for one region or postcode.
#[derive(Debug)]
pub struct RegionData {
    pub regionid: i32,
    pub dnoregion: Option<String>,
    pub shortname: String,
    pub postcode: Option<String>,
    /// The half hours, in the provider's order.
    pub data: Vec<Data>,
}

/// The forecast that stands for the half hour `entry`: the minute its `from`
/// names and its forecast intensity, or nothing where `from` is no date.
pub open spec fn forecast_of(entry: Data) -> Option<(int, i32)> {
    match text_minutes(entry.from@) {
        Some(minutes) => Some((minutes, entry.intensity.forecast)),
        None => None,
    }
}

/// The forecasts that stand for the half hours `data`, in their order, or
/// nothing where the `from` of one of them is no date.
pub open spec fn forecasts_of(data: Seq<Data>) -> Option<Seq<(int, i32)>> {
    if forall|i: int| 0 <= i < data.len() ==> forecast_of(#[trigger] data[i]) is Some {
        Some(Seq::new(data.len(), |i: int| forecast_of(data[i]).unwrap()))
    } else {
        None
    }
}

/// The forecasts `tuples` with each instant as its minute.
pub open spec fn forecasts_view(tuples: Seq<IntensityForDate>) -> Seq<(int, i32)> {
    Seq::new(tuples.len(), |i: int| (tuples[i].0@, tuples[i].1))
}

/// Turns the provider's half hours into forecasts, in their order.
///
/// Where the `from` of a half hour is no date, there is no list at all: the
/// result is `ApiError::DateParseError`.
pub fn to_tuples(data: Vec<Data>) -> (r: Result<Vec<IntensityForDate>, ApiError>)
    ensures
        match forecasts_of(data@) {
            Some(forecasts) => r matches Ok(tuples) && forecasts_view(tuples@) == forecasts,
            None => r matches Err(error) && error is DateParseError,
        },
{
    let mut tuples: Vec<IntensityForDate> = Vec::new();
    let mut i: usize = 0;
    while i < data.len()
        invariant
            i <= data.len(),
            tuples@.len() == i,
            forall|j: int|
                0 <= j < i ==> forecast_of(#[trigger] data@[j]) == Some((tuples@[j].0@, tuples@[j].1)),
        decreases data.len() - i,
    {
        match parse_date(data[i].from.as_str()) {
            Ok(start_date) => {
                tuples.push((start_date, data[i].intensity.forecast));
            },
            Err(error) => {
                return Err(ApiError::DateParseError(error));
            },
        }
        i += 1;
    }
    Ok(tuples)
}

/// The intensity now, out of the provider's answer to a query without dates:
/// the forecast of the first half hour of the first group.
///
/// An answer without groups, or whose first group holds no half hour, gives
/// `ApiError::NoDataError`.
pub fn current_intensity(groups: &Vec<RegionData>) -> (r: Result<i32, ApiError>)
    ensures
        match r {
            Ok(forecast) => groups@.len() > 0 && groups@[0].data@.len() > 0 && forecast
                == groups@[0].data@[0].intensity.forecast,
            Err(error) => error is NoDataError && (groups@.len() == 0 || groups@[0].data@.len()
                == 0),
        },
{
    if groups.len() == 0 {
        return Err(ApiError::NoDataError);
    }
    let first = &groups[0];
    if first.data.len() == 0 {
        return Err(ApiError::NoDataError);
    }
    Ok(first.data[0].intensity.forecast)
}

/// The forecasts that the answer for one window gives, or nothing where the
/// window has failed: its fetch gave an error, or a half hour of its answer
/// starts at what is no date.
pub open spec fn window_forecasts(result: Result<RegionData, ApiError>) -> Option<Seq<(int, i32)>> {
    match result {
        Ok(region) => forecasts_of(region.data@),
        Err(_) => None,
    }
}

/// The forecasts of all the windows, one window after the other, or nothing
/// where a window has failed.
pub open spec fn merged_forecasts(results: Seq<Result<RegionData, ApiError>>) -> Option<
    Seq<(int, i32)>,
>
    decreases results.len(),
{
    if results.len() == 0 {
        Some(Seq::empty())
    } else {
        match (merged_forecasts(results.drop_last()), window_forecasts(results.last())) {
            (Some(before), Some(forecasts)) => Some(before + forecasts),
            _ => None,
        }
    }
}

/// There is a merged list exactly if no window has failed: one window that
/// has failed leaves nothing of what the others hold.
pub proof fn lemma_one_failure_fails_all(results: Seq<Result<RegionData, ApiError>>)
    ensures
        merged_forecasts(results) is None <==> exists|i: int|
            0 <= i < results.len() && window_forecasts(#[trigger] results[i]) is None,
    decreases results.len(),
{
    if results.len() > 0 {
        let before = results.drop_last();
        lemma_one_failure_fails_all(before);
        if merged_forecasts(before) is None {
            let i = choose|i: int|
                0 <= i < before.len() && window_forecasts(#[trigger] before[i]) is None;
            assert(window_forecasts(results[i]) is None);
        }
        if exists|i: int|
            0 <= i < results.len() && window_forecasts(#[trigger] results[i]) is None {
            let i = choose|i: int|
                0 <= i < results.len() && window_forecasts(#[trigger] results[i]) is None;
            if i < before.len() {
                assert(window_forecasts(before[i]) is None);
            }
        }
    }
}

/// Merges the answers for the windows of a period, given in the order of the
/// windows, into one list of forecasts.
///
/// Where no window has failed, the list holds the forecasts of every window,
/// one window after the other, neither sorted again nor thinned. Where a
/// window has failed, there is no list, whatever the other windows hold: the
/// result is the error of the first window that failed, which is the error
/// of its fetch, or `ApiError::DateParseError` where its answer came but
/// holds what is no date.
pub fn merge_windows(results: Vec<Result<RegionData, ApiError>>) -> (r: Result<
    Vec<IntensityForDate>,
    ApiError,
>)
    ensures
        match merged_forecasts(results@) {
            Some(forecasts) => r matches Ok(tuples) && forecasts_view(tuples@) == forecasts,
            None => r matches Err(error) && exists|k: int|
                {
                    &&& 0 <= k < results@.len()
                    &&& window_forecasts(#[trigger] results@[k]) is None
                    &&& forall|j: int|
                        0 <= j < k ==> window_forecasts(#[trigger] results@[j]) is Some
                    &&& match results@[k] {
                        Ok(_) => error is DateParseError,
                        Err(failure) => error == failure,
                    }
                },
        },
{
    let ghost all = results@;
    let mut merged: Vec<IntensityForDate> = Vec::new();
    for result in iter: results.into_iter()
        invariant
            iter.seq() == all,
            forall|j: int| 0 <= j < iter.index() ==> window_forecasts(#[trigger] all[j]) is Some,
            merged_forecasts(all.take(iter.index() as int)) == Some(forecasts_view(merged@)),
    {
        let ghost k = iter.index() as int;
        proof {
            assert(all.take(k + 1).drop_last() =~= all.take(k));
            lemma_one_failure_fails_all(all);
        }
        let region = match result {
            Ok(region) => region,
            Err(failure) => {
                return Err(failure);
            },
        };
        let mut tuples = match to_tuples(region.data) {
            Ok(tuples) => tuples,
            Err(error) => {
                return Err(error);
            },
        };
        merged.append(&mut tuples);
    }
    assert(all.take(all.len() as int) =~= all);
    Ok(merged)
}

} // verus!
