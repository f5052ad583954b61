use std::str::FromStr;

use carbonintensity::{
    current_intensity, merge_windows, to_tuples, ApiError, Data, Instant, Intensity, RegionData,
};
use chrono::{NaiveDate, NaiveDateTime, NaiveTime};

fn test_data(from: &str, to: &str, intensity: i32) -> Data {
    Data {
        from: from.to_string(),
        to: to.to_string(),
        intensity: Intensity {
            forecast: intensity,
            index: "very high".to_string(),
        },
    }
}

fn region_data(data: Vec<Data>) -> RegionData {
    RegionData {
        regionid: 11,
        dnoregion: None,
        shortname: "South West England".to_string(),
        postcode: Some("BS7".to_string()),
        data,
    }
}

/// Returns an Instant from a string slice. Assumes input is valid
fn midnight(date: &str) -> Instant {
    let date_time = NaiveDate::from_str(date)
        .unwrap()
        .and_time(NaiveTime::from_hms_opt(0, 0, 0).unwrap());
    Instant::from_timestamp(date_time.and_utc().timestamp()).unwrap()
}

fn minute(text: &str) -> Instant {
    let date_time = NaiveDateTime::parse_from_str(text, "%Y-%m-%d %H:%M").unwrap();
    Instant::from_timestamp(date_time.and_utc().timestamp()).unwrap()
}

#[test]
fn to_tuples_test() {
    // One of the dates is invalid
    let data = vec![
        test_data("2024-01-01", "2024-02-01", 350),
        test_data("Invalid", "2024-03-01", 300),
        test_data("2024-03-01", "2024-04-01", 250),
    ];
    let result = to_tuples(data);
    assert!(matches!(result, Err(ApiError::DateParseError(_))));

    // Happy path
    let data = vec![
        test_data("2024-01-01", "2024-02-01", 350),
        test_data("2024-02-01", "2024-03-01", 300),
    ];
    let result = to_tuples(data);

    let jan = midnight("2024-01-01");
    let feb = midnight("2024-02-01");
    let expected = vec![(jan, 350), (feb, 300)];

    assert!(result.is_ok());
    assert_eq!(result.unwrap(), expected);
}

#[test]
fn to_tuples_of_nothing() {
    assert_eq!(to_tuples(Vec::new()).unwrap(), Vec::new());
}

#[test]
fn to_tuples_reads_the_providers_timestamps() {
    let data = vec![
        test_data("2022-12-31T23:30Z", "2023-01-01T00:00Z", 152),
        test_data("2023-01-01T00:00Z", "2023-01-01T00:30Z", 181),
        test_data("2023-01-01T00:30Z", "2023-01-01T01:00Z", -3),
    ];
    assert_eq!(
        to_tuples(data).unwrap(),
        vec![
            (minute("2022-12-31 23:30"), 152),
            (minute("2023-01-01 00:00"), 181),
            (minute("2023-01-01 00:30"), -3),
        ]
    );
}

#[test]
fn to_tuples_ignores_the_end_of_a_half_hour() {
    let data = vec![test_data("2024-01-01", "no date at all", 1)];
    assert_eq!(to_tuples(data).unwrap(), vec![(midnight("2024-01-01"), 1)]);
}

#[test]
fn current_intensity_takes_the_first_forecast() {
    let groups = vec![
        region_data(vec![
            test_data("2024-01-01T00:00Z", "2024-01-01T00:30Z", 152),
            test_data("2024-01-01T00:30Z", "2024-01-01T01:00Z", 181),
        ]),
        region_data(vec![test_data("2024-01-01T00:00Z", "2024-01-01T00:30Z", 7)]),
    ];
    assert_eq!(current_intensity(&groups).unwrap(), 152);
    // the dates are not read
    let groups = vec![region_data(vec![test_data("soon", "later", 99)])];
    assert_eq!(current_intensity(&groups).unwrap(), 99);
}

#[test]
fn current_intensity_without_data() {
    assert!(matches!(
        current_intensity(&Vec::new()),
        Err(ApiError::NoDataError)
    ));
    let groups = vec![
        region_data(Vec::new()),
        region_data(vec![test_data("2024-01-01T00:00Z", "2024-01-01T00:30Z", 7)]),
    ];
    assert!(matches!(
        current_intensity(&groups),
        Err(ApiError::NoDataError)
    ));
}

#[test]
fn merge_windows_in_order() {
    let results = vec![
        Ok(region_data(vec![
            test_data("2022-12-01T00:00Z", "2022-12-01T00:30Z", 10),
            test_data("2022-12-01T00:30Z", "2022-12-01T01:00Z", 11),
        ])),
        Ok(region_data(Vec::new())),
        Ok(region_data(vec![
            test_data("2022-12-14T00:00Z", "2022-12-14T00:30Z", 20),
        ])),
        // neither sorted again nor thinned
        Ok(region_data(vec![
            test_data("2022-12-14T00:00Z", "2022-12-14T00:30Z", 20),
            test_data("2022-12-01T00:00Z", "2022-12-01T00:30Z", 30),
        ])),
    ];
    assert_eq!(
        merge_windows(results).unwrap(),
        vec![
            (minute("2022-12-01 00:00"), 10),
            (minute("2022-12-01 00:30"), 11),
            (minute("2022-12-14 00:00"), 20),
            (minute("2022-12-14 00:00"), 20),
            (minute("2022-12-01 00:00"), 30),
        ]
    );
    assert_eq!(merge_windows(Vec::new()).unwrap(), Vec::new());
}

#[test]
fn merge_windows_fails_if_the_second_of_three_fails() {
    let first = || {
        Ok(region_data(vec![test_data(
            "2022-12-01T00:00Z",
            "2022-12-01T00:30Z",
            10,
        )]))
    };
    let third = || {
        Ok(region_data(vec![test_data(
            "2022-12-27T00:00Z",
            "2022-12-27T00:30Z",
            30,
        )]))
    };

    let results = vec![
        first(),
        Err(ApiError::TransportError("connection refused".to_string())),
        third(),
    ];
    match merge_windows(results) {
        Err(ApiError::TransportError(message)) => assert_eq!(message, "connection refused"),
        other => panic!("unexpected {:?}", other),
    }

    let results = vec![
        first(),
        Err(ApiError::StatusError {
            code: 400,
            body: "Bad Request".to_string(),
        }),
        third(),
    ];
    match merge_windows(results) {
        Err(ApiError::StatusError { code, body }) => {
            assert_eq!(code, 400);
            assert_eq!(body, "Bad Request");
        }
        other => panic!("unexpected {:?}", other),
    }

    let results = vec![
        first(),
        Err(ApiError::DecodeError("missing field `data`".to_string())),
        third(),
    ];
    match merge_windows(results) {
        Err(ApiError::DecodeError(message)) => assert_eq!(message, "missing field `data`"),
        other => panic!("unexpected {:?}", other),
    }

    let results = vec![
        first(),
        Ok(region_data(vec![
            test_data("2022-12-14T00:00Z", "2022-12-14T00:30Z", 20),
            test_data("Invalid", "2022-12-14T01:00Z", 21),
        ])),
        third(),
    ];
    let expected = NaiveDateTime::parse_from_str("Invalid", "%Y-%m-%dT%H:%MZ").unwrap_err();
    match merge_windows(results) {
        Err(ApiError::DateParseError(error)) => assert_eq!(error, expected),
        other => panic!("unexpected {:?}", other),
    }
}

#[test]
fn merge_windows_reports_the_first_failure() {
    let results = vec![
        Ok(region_data(Vec::new())),
        Err(ApiError::StatusError {
            code: 500,
            body: "first".to_string(),
        }),
        Err(ApiError::TransportError("second".to_string())),
        Ok(region_data(vec![test_data("Invalid", "Invalid", 1)])),
    ];
    assert!(matches!(
        merge_windows(results),
        Err(ApiError::StatusError { code: 500, .. })
    ));

    let results = vec![
        Ok(region_data(vec![test_data("Invalid", "Invalid", 1)])),
        Err(ApiError::TransportError("second".to_string())),
    ];
    assert!(matches!(
        merge_windows(results),
        Err(ApiError::DateParseError(_))
    ));

    let results = vec![Err(ApiError::NoDataError), Err(ApiError::InvalidTargetError)];
    assert!(matches!(merge_windows(results), Err(ApiError::NoDataError)));
}
