//! The addresses at which the provider is asked: one for the intensity now,
//! and one for each window of a period.

use vstd::prelude::*;
use vstd::string::StringExecFns;

use crate::dates::{
    format_date, from_of, is_split_outcome, minute_text, split, to_of,
    ValidityBounds,
};
use crate::error::ApiError;
use crate::instant::{minutes_after, Instant};
use crate::target::Target;

verus! {

/// The provider's address.
pub open spec fn base_url() -> Seq<char> {
    "https://api.carbonintensity.org.uk"@
}

/// The end of an address that names `target`: `postcode/` and the postcode
/// where that has two to four characters, `regionid/` and the number of the
/// region; nothing for any other postcode and for the whole country.
pub open spec fn target_path(target: Target) -> Option<Seq<char>> {
    match target {
        Target::Postcode(postcode) => if 2 <= postcode@.len() <= 4 {
            Some("postcode/"@ + postcode@)
        } else {
            None
        },
        Target::Region(region) => Some("regionid/"@ + region.id_text()),
        Target::National => None,
    }
}

/// The address for the intensity now at what `path` names.
pub open spec fn current_url(path: Seq<char>) -> Seq<char> {
    base_url() + "/regional/"@ + path
}

/// The address for the window from the minute `from` to the minute `to` at
/// what `path` names. The provider is asked for both ends one minute later.
pub open spec fn window_url(path: Seq<char>, from: int, to: int) -> Seq<char> {
    base_url() + "/regional/intensity/"@ + minute_text(minutes_after(from, 1)) + "/"@
        + minute_text(minutes_after(to, 1)) + "/"@ + path
}

/// The end of an address that names `target`, or
/// `ApiError::InvalidTargetError` where the provider cannot be asked about
/// it: a postcode must have two to four characters, and the whole country
/// has no such address.
pub fn path_of(target: &Target) -> (r: Result<String, ApiError>)
    ensures
        match target_path(*target) {
            Some(path) => r matches Ok(text) && text@ == path,
            None => r matches Err(error) && error is InvalidTargetError,
        },
{
    match target {
        Target::Postcode(postcode) => {
            let len = postcode.as_str().unicode_len();
            if len < 2 || len > 4 {
                return Err(ApiError::InvalidTargetError);
            }
            Ok(String::from_str("postcode/").concat(postcode.as_str()))
        },
        Target::Region(region) => Ok(String::from_str("regionid/").concat(region.id_str())),
        Target::National => Err(ApiError::InvalidTargetError),
    }
}

/// The address at which the provider gives the intensity now for `target`.
pub fn intensity_url(target: &Target) -> (r: Result<String, ApiError>)
    ensures
        match target_path(*target) {
            Some(path) => r matches Ok(url) && url@ == current_url(path),
            None => r matches Err(error) && error is InvalidTargetError,
        },
{
    let path = path_of(target)?;
    let url = String::from_str("https://api.carbonintensity.org.uk").concat("/regional/").concat(
        path.as_str(),
    );
    Ok(url)
}

/// The address at which the provider gives the half hours of `window` for
/// what `path` names.
pub fn url_of_window(path: &str, window: (Instant, Instant)) -> (url: String)
    ensures
        url@ == window_url(path@, window.0@, window.1@),
{
    let start_date = format_date(window.0.plus_minutes(1));
    let end_date = format_date(window.1.plus_minutes(1));
    String::from_str("https://api.carbonintensity.org.uk").concat("/regional/intensity/").concat(
        start_date.as_str(),
    ).concat("/").concat(end_date.as_str()).concat("/").concat(path)
}

/// Whether `urls` holds, in order, the address of each of `windows` for what
/// `path` names.
pub open spec fn are_window_urls(
    urls: Seq<String>,
    path: Seq<char>,
    windows: Seq<(Instant, Instant)>,
) -> bool {
    &&& urls.len() == windows.len()
    &&& forall|i: int|
        0 <= i < urls.len() ==> (#[trigger] urls[i])@ == window_url(
            path,
            from_of(windows, i),
            to_of(windows, i),
        )
}

/// The addresses for `windows`, in their order.
pub fn urls_of_windows(path: &str, windows: &Vec<(Instant, Instant)>) -> (urls: Vec<String>)
    ensures
        are_window_urls(urls@, path@, windows@),
{
    let mut urls: Vec<String> = Vec::new();
    let mut i: usize = 0;
    while i < windows.len()
        invariant
            i <= windows.len(),
            are_window_urls(urls@, path@, windows@.take(i as int)),
        decreases windows.len() - i,
    {
        urls.push(url_of_window(path, windows[i]));
        i += 1;
    }
    urls
}

/// Whether `r` is what asking for `target` over the period from the date
/// `start` to the date `end` within `bounds` comes to.
///
/// A target about which the provider cannot be asked gives
/// `ApiError::InvalidTargetError`, whatever the dates are. Otherwise a date
/// that is none gives `ApiError::DateParseError`, and two dates give the
/// addresses of the windows of their split, in order.
pub open spec fn is_plan(
    target: Target,
    start: &str,
    end: Option<&str>,
    bounds: ValidityBounds,
    r: Result<Vec<String>, ApiError>,
) -> bool {
    match target_path(target) {
        None => r matches Err(error) && error is InvalidTargetError,
        Some(path) => match r {
            Ok(urls) => exists|windows: Vec<(Instant, Instant)>|
                #![trigger is_split_outcome(start, end, bounds, Ok(windows))]
                is_split_outcome(start, end, bounds, Ok(windows)) && are_window_urls(
                    urls@,
                    path,
                    windows@,
                ),
            Err(error) => error is DateParseError && is_split_outcome(
                start,
                end,
                bounds,
                Err(error),
            ),
        },
    }
}

/// The addresses at which to ask the provider for `target` over the period
/// from the date `start` to the date `end`, or to `bounds.now` where `end` is
/// `None`: one address for each window of the split of the period, in order.
pub fn window_urls(target: &Target, start: &str, end: Option<&str>, bounds: &ValidityBounds) -> (r:
    Result<Vec<String>, ApiError>)
    ensures
        is_plan(*target, start, end, *bounds, r),
{
    let path = path_of(target)?;
    match split(start, end, bounds) {
        Ok(ranges) => Ok(urls_of_windows(path.as_str(), &ranges)),
        Err(error) => Err(error),
    }
}

/// The addresses at which to ask the provider for `target` over the period
/// from the date `start` to the date `end`, or to the present minute where
/// `end` is `None`.
///
/// This is `window_urls` within the bounds that reach from the provider's
/// first half hour to the present minute of the local clock.
pub fn intensities_urls(target: &Target, start: &str, end: &Option<&str>) -> (r: Result<
    Vec<String>,
    ApiError,
>)
    ensures
        exists|bounds: ValidityBounds|
            bounds.starts_at_oldest() && #[trigger] is_plan(*target, start, *end, bounds, r),
{
    let bounds = ValidityBounds::current();
    window_urls(target, start, *end, &bounds)
}

} // verus!
