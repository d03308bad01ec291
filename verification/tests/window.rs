use labtool::errors::ParseError;
use labtool::records::Pipeline;
use labtool::window::{created_at, filter_pipelines, parse_duration, Instant, Window, WindowUnit};

fn pipeline_at(id: i64, created: Option<&str>) -> Pipeline {
    Pipeline {
        id: Some(id),
        status: None,
        reference: Some("main".to_string()),
        created_at: created.map(|text| text.to_string()),
        web_url: None,
    }
}

fn ids_of(pipelines: &Vec<Pipeline>) -> Vec<i64> {
    pipelines.iter().map(|pipeline| pipeline.id.unwrap()).collect()
}

fn instant_of(time: chrono::DateTime<chrono::Utc>) -> Instant {
    Instant { seconds: time.timestamp(), nanos: time.timestamp_subsec_nanos() }
}

#[test]
fn parses_hours_and_days() {
    assert_eq!(parse_duration("2h"), Ok(Window { amount: 2, unit: WindowUnit::Hours }));
    assert_eq!(parse_duration("3d"), Ok(Window { amount: 3, unit: WindowUnit::Days }));
    assert_eq!(parse_duration("0h"), Ok(Window { amount: 0, unit: WindowUnit::Hours }));
    assert_eq!(parse_duration("007d"), Ok(Window { amount: 7, unit: WindowUnit::Days }));
    assert_eq!(parse_duration("120h"), Ok(Window { amount: 120, unit: WindowUnit::Hours }));
}

#[test]
fn refuses_what_is_no_window() {
    assert_eq!(parse_duration("2x"), Err(ParseError::InvalidUnit));
    assert_eq!(parse_duration("h"), Err(ParseError::InvalidNumber));
    assert_eq!(parse_duration(""), Err(ParseError::InvalidUnit));
}

#[test]
fn the_unit_is_looked_at_first() {
    assert_eq!(parse_duration("xx"), Err(ParseError::InvalidUnit));
    assert_eq!(parse_duration("2H"), Err(ParseError::InvalidUnit));
    assert_eq!(parse_duration("2D"), Err(ParseError::InvalidUnit));
    assert_eq!(parse_duration("2"), Err(ParseError::InvalidUnit));
    assert_eq!(parse_duration("2é"), Err(ParseError::InvalidUnit));
    assert_eq!(parse_duration("ah"), Err(ParseError::InvalidNumber));
    assert_eq!(parse_duration("d"), Err(ParseError::InvalidNumber));
}

#[test]
fn the_amount_is_digits_after_at_most_one_plus() {
    assert_eq!(parse_duration("+5h"), Ok(Window { amount: 5, unit: WindowUnit::Hours }));
    assert_eq!(parse_duration("++5h"), Err(ParseError::InvalidNumber));
    assert_eq!(parse_duration("+h"), Err(ParseError::InvalidNumber));
    assert_eq!(parse_duration("-5h"), Err(ParseError::InvalidNumber));
    assert_eq!(parse_duration(" 5h"), Err(ParseError::InvalidNumber));
    assert_eq!(parse_duration("5 h"), Err(ParseError::InvalidNumber));
    assert_eq!(parse_duration("1_0h"), Err(ParseError::InvalidNumber));
    assert_eq!(parse_duration("1.5h"), Err(ParseError::InvalidNumber));
    assert_eq!(parse_duration("2hh"), Err(ParseError::InvalidNumber));
    assert_eq!(parse_duration("٣d"), Err(ParseError::InvalidNumber));
}

#[test]
fn the_amount_fits_in_64_bits() {
    assert_eq!(
        parse_duration("18446744073709551615h"),
        Ok(Window { amount: u64::MAX, unit: WindowUnit::Hours })
    );
    assert_eq!(parse_duration("18446744073709551616h"), Err(ParseError::InvalidNumber));
    assert_eq!(parse_duration("99999999999999999999999d"), Err(ParseError::InvalidNumber));
    assert_eq!(parse_duration("184467440737095516150x"), Err(ParseError::InvalidUnit));
}

#[test]
fn the_window_agrees_with_the_parser_of_integers() {
    for text in ["0", "1", "+1", "42", "0042", "", "+", "-1", "1a", "a1", "18446744073709551615"] {
        let expected = text.parse::<u64>().ok();
        let got = parse_duration(&format!("{}h", text)).ok().map(|window| window.amount);
        assert_eq!(got, expected);
    }
}

#[test]
fn contains_counts_the_boundary_in() {
    let now = Instant { seconds: 1_700_000_000, nanos: 500 };
    let two_hours = Window { amount: 2, unit: WindowUnit::Hours };
    let exactly = Instant { seconds: 1_700_000_000 - 7_200, nanos: 500 };
    let a_nanosecond_more = Instant { seconds: 1_700_000_000 - 7_200, nanos: 499 };
    let a_nanosecond_less = Instant { seconds: 1_700_000_000 - 7_200, nanos: 501 };
    assert!(two_hours.contains(exactly, now));
    assert!(!two_hours.contains(a_nanosecond_more, now));
    assert!(two_hours.contains(a_nanosecond_less, now));
    assert!(two_hours.contains(now, now));
}

#[test]
fn a_day_is_86400_seconds() {
    let now = Instant { seconds: 200_000, nanos: 0 };
    let one_day = Window { amount: 1, unit: WindowUnit::Days };
    assert!(one_day.contains(Instant { seconds: 200_000 - 86_400, nanos: 0 }, now));
    assert!(!one_day.contains(Instant { seconds: 200_000 - 86_401, nanos: 0 }, now));
    let one_hour = Window { amount: 1, unit: WindowUnit::Hours };
    assert!(one_hour.contains(Instant { seconds: 200_000 - 3_600, nanos: 0 }, now));
    assert!(!one_hour.contains(Instant { seconds: 200_000 - 3_601, nanos: 0 }, now));
}

#[test]
fn contains_takes_the_future_and_the_extremes() {
    let now = Instant { seconds: 0, nanos: 0 };
    let none = Window { amount: 0, unit: WindowUnit::Hours };
    assert!(none.contains(Instant { seconds: 10, nanos: 0 }, now));
    assert!(!none.contains(Instant { seconds: -1, nanos: 999_999_999 }, now));
    let all = Window { amount: u64::MAX, unit: WindowUnit::Days };
    assert!(all.contains(Instant { seconds: i64::MIN, nanos: 0 }, Instant { seconds: i64::MAX, nanos: u32::MAX }));
    assert!(!none.contains(Instant { seconds: i64::MIN, nanos: 0 }, Instant { seconds: i64::MAX, nanos: u32::MAX }));
}

#[test]
fn created_at_reads_rfc3339() {
    let at = created_at(&pipeline_at(1, Some("2024-01-02T03:04:05.250Z")));
    assert_eq!(at, Some(Instant { seconds: 1_704_164_645, nanos: 250_000_000 }));
    let east = created_at(&pipeline_at(1, Some("2024-01-02T05:04:05+02:00")));
    assert_eq!(east, Some(Instant { seconds: 1_704_164_645, nanos: 0 }));
    assert_eq!(created_at(&pipeline_at(1, Some("yesterday"))), None);
    assert_eq!(created_at(&pipeline_at(1, Some(""))), None);
    assert_eq!(created_at(&pipeline_at(1, Some("2024-01-02"))), None);
    assert_eq!(created_at(&pipeline_at(1, None)), None);
}

#[test]
fn filter_keeps_the_boundary() {
    let now = Instant { seconds: 1_704_164_645, nanos: 0 };
    let window = Window { amount: 2, unit: WindowUnit::Hours };
    let pipelines = vec![
        pipeline_at(1, Some("2024-01-02T01:04:05Z")),
        pipeline_at(2, Some("2024-01-02T01:04:04.999999999Z")),
    ];
    let kept = filter_pipelines(pipelines, window, now);
    assert_eq!(ids_of(&kept), vec![1]);
}

#[test]
fn filter_drops_what_does_not_read() {
    let now = Instant { seconds: 1_704_164_645, nanos: 0 };
    let pipelines = vec![
        pipeline_at(1, Some("not a time")),
        pipeline_at(2, None),
        pipeline_at(3, Some("2024-01-02T03:04:05Z")),
        pipeline_at(4, Some("2024-13-02T03:04:05Z")),
    ];
    for window in [
        Window { amount: 0, unit: WindowUnit::Hours },
        Window { amount: 1, unit: WindowUnit::Days },
        Window { amount: u64::MAX, unit: WindowUnit::Days },
    ] {
        let kept = filter_pipelines(pipelines.clone(), window, now);
        assert_eq!(ids_of(&kept), vec![3]);
    }
}

#[test]
fn filter_keeps_the_order_and_the_records() {
    let now = Instant { seconds: 1_704_164_645, nanos: 0 };
    let window = Window { amount: 1, unit: WindowUnit::Days };
    let pipelines = vec![
        pipeline_at(5, Some("2024-01-02T03:00:00Z")),
        pipeline_at(9, Some("2023-01-02T03:00:00Z")),
        pipeline_at(1, Some("2024-01-01T23:00:00Z")),
        pipeline_at(7, Some("2024-01-02T02:00:00Z")),
        pipeline_at(5, Some("2024-01-02T03:00:00Z")),
    ];
    let kept = filter_pipelines(pipelines.clone(), window, now);
    assert_eq!(ids_of(&kept), vec![5, 1, 7, 5]);
    assert_eq!(kept[0], pipelines[0]);
    assert_eq!(kept[1], pipelines[2]);
    assert_eq!(kept[2], pipelines[3]);
    assert_eq!(kept[3], pipelines[4]);
    assert_eq!(filter_pipelines(Vec::new(), window, now), Vec::new());
}

#[test]
fn filter_with_last_two_hours_keeps_the_first_two_of_three() {
    let now = chrono::Utc::now();
    let pipelines = vec![
        pipeline_at(1, Some(&now.to_rfc3339())),
        pipeline_at(2, Some(&(now - chrono::Duration::minutes(90)).to_rfc3339())),
        pipeline_at(3, Some(&(now - chrono::Duration::hours(25)).to_rfc3339())),
    ];
    let window = parse_duration("2h").unwrap();
    let kept = filter_pipelines(pipelines, window, instant_of(now));
    assert_eq!(ids_of(&kept), vec![1, 2]);
}

#[test]
fn a_leap_second_is_counted_as_chrono_counts_it() {
    let two_hours = Window { amount: 2, unit: WindowUnit::Hours };
    let created = created_at(&pipeline_at(1, Some("2016-12-31T23:59:60Z"))).unwrap();
    assert_eq!(created, Instant { seconds: 1_483_228_799, nanos: 1_000_000_000 });
    let at = |text: &str| created_at(&pipeline_at(1, Some(text))).unwrap();
    assert!(two_hours.contains(created, at("2017-01-01T01:59:59Z")));
    assert!(two_hours.contains(created, at("2017-01-01T02:00:00Z")));
    assert!(!two_hours.contains(created, at("2017-01-01T02:00:00.000000001Z")));
    let kept = filter_pipelines(
        vec![pipeline_at(1, Some("2015-06-30T10:00:60Z")), pipeline_at(2, Some("2015-06-30T10:01:00Z"))],
        two_hours,
        at("2015-06-30T12:01:00Z"),
    );
    assert_eq!(ids_of(&kept), vec![2]);
}

#[test]
fn contains_agrees_with_the_subtraction_of_chrono() {
    let texts = [
        "2016-12-31T23:59:59Z",
        "2016-12-31T23:59:59.5Z",
        "2016-12-31T23:59:60Z",
        "2016-12-31T23:59:60.999999999Z",
        "2017-01-01T00:00:00Z",
        "2017-01-01T01:59:59Z",
        "2017-01-01T01:59:59.999999999Z",
        "2017-01-01T01:59:60Z",
        "2017-01-01T02:00:00Z",
        "2017-01-01T02:00:00.5Z",
        "2016-12-31T21:59:60.5Z",
        "2016-12-31T22:00:00Z",
        "1969-12-31T23:59:60.25Z",
        "1969-12-31T22:00:00-01:00",
        "1970-01-01T00:00:00+02:00",
        "1970-01-01T01:59:60Z",
    ];
    for window in [
        Window { amount: 0, unit: WindowUnit::Hours },
        Window { amount: 2, unit: WindowUnit::Hours },
        Window { amount: 1, unit: WindowUnit::Days },
    ] {
        let span = match window.unit {
            WindowUnit::Hours => chrono::Duration::hours(window.amount as i64),
            WindowUnit::Days => chrono::Duration::days(window.amount as i64),
        };
        for created in texts {
            for now in texts {
                let created_time = chrono::DateTime::parse_from_rfc3339(created).unwrap().with_timezone(&chrono::Utc);
                let now_time = chrono::DateTime::parse_from_rfc3339(now).unwrap().with_timezone(&chrono::Utc);
                let expected = now_time - created_time <= span;
                let got = window.contains(instant_of(created_time), instant_of(now_time));
                assert_eq!(got, expected);
            }
        }
    }
}

#[test]
fn the_second_of_the_day_is_never_negative() {
    assert_eq!(Instant { seconds: 0, nanos: 0 }.day_second(), 0);
    assert_eq!(Instant { seconds: 86_399, nanos: 0 }.day_second(), 86_399);
    assert_eq!(Instant { seconds: 86_400, nanos: 0 }.day_second(), 0);
    assert_eq!(Instant { seconds: -1, nanos: 0 }.day_second(), 86_399);
    assert_eq!(Instant { seconds: -86_400, nanos: 0 }.day_second(), 0);
    assert_eq!(Instant { seconds: -86_401, nanos: 0 }.day_second(), 86_399);
    assert_eq!(Instant { seconds: i64::MIN, nanos: 0 }.day_second(), i64::MIN.rem_euclid(86_400));
    assert_eq!(Instant { seconds: i64::MAX, nanos: 0 }.day_second(), i64::MAX.rem_euclid(86_400));
}
