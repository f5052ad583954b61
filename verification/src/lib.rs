//! Carbon intensity forecasts for Great Britain: the rules that turn a
//! requested period into queries the provider accepts, and the provider's
//! answers into one list of measurements.

pub mod calendar;
pub mod data;
pub mod dates;
pub mod error;
pub mod instant;
pub mod region;
pub mod request;
pub mod target;

pub use data::{
    current_intensity, merge_windows, to_tuples, Data, Intensity, IntensityForDate, RegionData,
};
pub use dates::{
    format_date, normalise_dates, parse_date, split, split_range, validate_date, ValidityBounds,
};
pub use error::ApiError;
pub use instant::Instant;
pub use region::{Region, RegionError};
pub use request::{
    intensities_urls, intensity_url, path_of, url_of_window, urls_of_windows, window_urls,
};
pub use target::Target;
