use date_util::CliOptions;
use date_util::DateError;
use date_util::DateSource;
use date_util::Format;
use date_util::Iso8601Format;
use date_util::Rfc3339Format;
use date_util::Timestamp;
use date_util::clock_set_outcome;
use date_util::date_line;
use date_util::date_lines;
use date_util::format_timestamp;
use date_util::get_now;
use date_util::make_format_string;
use date_util::now_line;
use date_util::parse_standard;
use date_util::reference_line;
use date_util::resolve;

fn no_flags() -> CliOptions {
    CliOptions {
        utc: false,
        date: None,
        file: None,
        reference: None,
        iso8601_present: false,
        iso8601_value: None,
        rfc2822: false,
        rfc3339_value: None,
        custom_format: None,
        set: None,
        positional_set: None,
    }
}

fn sample_ts() -> Timestamp {
    Timestamp {
        year: 2006,
        month: 8,
        day: 7,
        hour: 12,
        minute: 34,
        second: 56,
        nanosecond: 0,
        offset_seconds: -21600,
    }
}

#[test]
fn templates_match_format_selection() {
    assert_eq!(make_format_string(&Format::Iso8601(Iso8601Format::Date)), "%F");
    assert_eq!(make_format_string(&Format::Iso8601(Iso8601Format::Hours)), "%FT%H%:z");
    assert_eq!(make_format_string(&Format::Iso8601(Iso8601Format::Minutes)), "%FT%H:%M%:z");
    assert_eq!(make_format_string(&Format::Iso8601(Iso8601Format::Seconds)), "%FT%T%:z");
    assert_eq!(make_format_string(&Format::Iso8601(Iso8601Format::Ns)), "%FT%T,%f%:z");
    assert_eq!(make_format_string(&Format::Rfc2822), "%a, %d %h %Y %T %z");
    assert_eq!(make_format_string(&Format::Rfc3339(Rfc3339Format::Date)), "%F");
    assert_eq!(make_format_string(&Format::Rfc3339(Rfc3339Format::Seconds)), "%F %T%:z");
    assert_eq!(make_format_string(&Format::Rfc3339(Rfc3339Format::Ns)), "%F %T.%f%:z");
    assert_eq!(make_format_string(&Format::Custom("%s %N".to_string())), "%s %N");
    assert_eq!(make_format_string(&Format::Default), "%a %b %e %T %Z %Y");
}

#[test]
fn rendering_fixed_timestamp() {
    let ts = sample_ts();
    assert_eq!(
        format_timestamp(&ts, &Format::Rfc3339(Rfc3339Format::Seconds)).unwrap(),
        "2006-08-07 12:34:56-06:00"
    );
    assert_eq!(
        format_timestamp(&ts, &Format::Iso8601(Iso8601Format::Seconds)).unwrap(),
        "2006-08-07T12:34:56-06:00"
    );
    assert_eq!(
        format_timestamp(&ts, &Format::Rfc2822).unwrap(),
        "Mon, 07 Aug 2006 12:34:56 -0600"
    );
    assert_eq!(format_timestamp(&ts, &Format::Iso8601(Iso8601Format::Date)).unwrap(), "2006-08-07");
    assert_eq!(
        format_timestamp(&ts, &Format::Custom("%Y".to_string())).unwrap(),
        "2006"
    );
}

#[test]
fn render_then_reparse_within_seconds_precision() {
    let ts = Timestamp { nanosecond: 123_456_789, ..sample_ts() };
    let line = format_timestamp(&ts, &Format::Rfc3339(Rfc3339Format::Seconds)).unwrap();
    let back = parse_standard(&line).unwrap();
    assert_eq!(back.year, ts.year);
    assert_eq!(back.month, ts.month);
    assert_eq!(back.day, ts.day);
    assert_eq!(back.hour, ts.hour);
    assert_eq!(back.minute, ts.minute);
    assert_eq!(back.second, ts.second);
    assert_eq!(back.offset_seconds, ts.offset_seconds);
    // Only the sub-second part may be lost at the Seconds truncation boundary.
    assert_eq!(back.nanosecond, 0);
}

#[test]
fn date_and_file_is_usage_error() {
    let opts = CliOptions {
        date: Some("2006-08-07T12:34:56-06:00".to_string()),
        file: Some("dates.txt".to_string()),
        ..no_flags()
    };
    let now = sample_ts();
    assert!(matches!(resolve(&opts, &now), Err(DateError::Usage)));
}

#[test]
fn set_and_date_is_usage_error() {
    let opts = CliOptions {
        set: Some("2006-08-07T12:34:56-06:00".to_string()),
        date: Some("2006-08-07T12:34:56-06:00".to_string()),
        ..no_flags()
    };
    let now = sample_ts();
    assert!(matches!(resolve(&opts, &now), Err(DateError::Usage)));
}

#[test]
fn set_and_positional_set_is_usage_error() {
    let opts = CliOptions {
        set: Some("2006-08-07T12:34:56-06:00".to_string()),
        positional_set: Some("01011200".to_string()),
        ..no_flags()
    };
    let now = sample_ts();
    assert!(matches!(resolve(&opts, &now), Err(DateError::Usage)));
}

#[test]
fn two_format_flags_is_usage_error() {
    let opts = CliOptions { rfc2822: true, iso8601_present: true, ..no_flags() };
    let now = sample_ts();
    assert!(matches!(resolve(&opts, &now), Err(DateError::Usage)));
}

#[test]
fn resolve_defaults() {
    let now = sample_ts();
    let st = resolve(&no_flags(), &now).unwrap();
    assert!(!st.utc);
    assert_eq!(st.date_source, DateSource::Now);
    assert_eq!(st.format, Format::Default);
    assert!(st.set_to.is_none());
}

#[test]
fn resolve_format_choices() {
    let now = sample_ts();
    let st = resolve(
        &CliOptions { custom_format: Some("+%Y-%m".to_string()), ..no_flags() },
        &now,
    )
    .unwrap();
    assert_eq!(st.format, Format::Custom("%Y-%m".to_string()));

    let st = resolve(
        &CliOptions {
            iso8601_present: true,
            iso8601_value: Some("minutes".to_string()),
            ..no_flags()
        },
        &now,
    )
    .unwrap();
    assert_eq!(st.format, Format::Iso8601(Iso8601Format::Minutes));

    let st = resolve(&CliOptions { iso8601_present: true, ..no_flags() }, &now).unwrap();
    assert_eq!(st.format, Format::Iso8601(Iso8601Format::Date));

    let st = resolve(&CliOptions { rfc2822: true, ..no_flags() }, &now).unwrap();
    assert_eq!(st.format, Format::Rfc2822);

    let st = resolve(
        &CliOptions { rfc3339_value: Some("ns".to_string()), ..no_flags() },
        &now,
    )
    .unwrap();
    assert_eq!(st.format, Format::Rfc3339(Rfc3339Format::Ns));
}

#[test]
fn resolve_rejects_bad_format_values() {
    let now = sample_ts();
    let r = resolve(&CliOptions { custom_format: Some("%Y".to_string()), ..no_flags() }, &now);
    assert!(matches!(r, Err(DateError::Usage)));
    let r = resolve(
        &CliOptions {
            iso8601_present: true,
            iso8601_value: Some("nanos".to_string()),
            ..no_flags()
        },
        &now,
    );
    assert!(matches!(r, Err(DateError::Usage)));
    let r = resolve(
        &CliOptions { rfc3339_value: Some("hours".to_string()), ..no_flags() },
        &now,
    );
    assert!(matches!(r, Err(DateError::Usage)));
}

#[test]
fn resolve_sources_and_set_values() {
    let now = sample_ts();
    let st = resolve(&CliOptions { file: Some("dates.txt".to_string()), ..no_flags() }, &now)
        .unwrap();
    assert_eq!(st.date_source, DateSource::File("dates.txt".to_string()));

    let st = resolve(
        &CliOptions { reference: Some("a.log".to_string()), ..no_flags() },
        &now,
    )
    .unwrap();
    assert_eq!(st.date_source, DateSource::Reference("a.log".to_string()));

    let st = resolve(
        &CliOptions { positional_set: Some("010112002506.30".to_string()), ..no_flags() },
        &now,
    )
    .unwrap();
    let t = st.set_to.unwrap();
    assert_eq!((t.year, t.second), (2506, 30));
    assert_eq!(st.date_source, DateSource::Now);

    let st = resolve(
        &CliOptions { set: Some("Mon, 07 Aug 2006 12:34:56 -0600".to_string()), ..no_flags() },
        &now,
    )
    .unwrap();
    assert_eq!(st.set_to.unwrap(), sample_ts());

    let r = resolve(
        &CliOptions { positional_set: Some("13011200".to_string()), ..no_flags() },
        &now,
    );
    assert!(matches!(r, Err(DateError::FieldRange { .. })));

    let r = resolve(&CliOptions { set: Some("gibberish".to_string()), ..no_flags() }, &now);
    assert_eq!(r.err().unwrap(), DateError::Syntax("gibberish".to_string()));
}

#[test]
fn date_line_parses_and_renders() {
    let line = date_line(
        "2006-08-07T12:34:56-06:00",
        &Format::Custom("%Y/%m/%d".to_string()),
    )
    .unwrap();
    assert_eq!(line, "2006/08/07");
}

#[test]
fn three_line_file_stops_at_malformed_second_line() {
    let lines = vec![
        "2006-08-07T12:34:56-06:00".to_string(),
        "not a date".to_string(),
        "1996-12-19T16:39:57-08:00".to_string(),
    ];
    let (out, err) = date_lines(&lines, &Format::Rfc3339(Rfc3339Format::Seconds));
    assert_eq!(out, vec!["2006-08-07 12:34:56-06:00".to_string()]);
    assert_eq!(err, Some(DateError::Syntax("not a date".to_string())));
}

#[test]
fn file_lines_all_good() {
    let lines = vec![
        "2006-08-07T12:34:56-06:00".to_string(),
        "1996-12-19T16:39:57-08:00".to_string(),
    ];
    let (out, err) = date_lines(&lines, &Format::Iso8601(Iso8601Format::Date));
    assert_eq!(out, vec!["2006-08-07".to_string(), "1996-12-19".to_string()]);
    assert_eq!(err, None);
}

#[test]
fn now_line_renders_sample() {
    let now = get_now(true).unwrap();
    assert_eq!(now.offset_seconds, 0);
    let line = now_line(&now, &Format::Custom("%:z".to_string())).unwrap();
    assert_eq!(line, "+00:00");
    let iso = now_line(&now, &Format::Iso8601(Iso8601Format::Date)).unwrap();
    assert_eq!(iso.len(), 10);
}

#[test]
fn reference_line_renders_epoch() {
    let line = reference_line(0, 0, &Format::Rfc3339(Rfc3339Format::Seconds)).unwrap();
    assert_eq!(line, "1970-01-01 00:00:00+00:00");
    let line = reference_line(1_154_953_496, 0, &Format::Rfc2822).unwrap();
    assert_eq!(line, "Mon, 07 Aug 2006 12:24:56 +0000");
}

#[test]
fn reference_line_out_of_range() {
    let r = reference_line(i64::MAX, 0, &Format::Default);
    assert_eq!(r, Err(DateError::Io("file modification time out of range".to_string())));
}

#[test]
fn rejected_template_is_template_error() {
    let ts = sample_ts();
    let r = now_line(&ts, &Format::Custom("%".to_string()));
    assert_eq!(r, Err(DateError::Template("%".to_string())));
    let r = date_line("2006-08-07T12:34:56-06:00", &Format::Custom("%".to_string()));
    assert_eq!(r, Err(DateError::Template("%".to_string())));
}

#[test]
fn clock_set_outcomes() {
    assert_eq!(clock_set_outcome(0, 0), Ok(()));
    assert_eq!(clock_set_outcome(-1, 1), Err(DateError::ClockSet(1)));
    assert_eq!(clock_set_outcome(7, 0), Err(DateError::UnknownReturnCode(7)));
}
