use boobar::duration::{parse_duration, Interval};
use boobar::error::ConfigError;

#[test]
fn parse_ms_exact() {
    assert_eq!(parse_duration("500ms"), Ok(Interval { secs: 0, millis: 500 }));
}

#[test]
fn parse_ms_carries_seconds() {
    assert_eq!(parse_duration("1500ms"), Ok(Interval { secs: 1, millis: 500 }));
}

#[test]
fn parse_s_exact() {
    assert_eq!(parse_duration("1s"), Ok(Interval { secs: 1, millis: 0 }));
}

#[test]
fn parse_zero() {
    assert_eq!(parse_duration("0ms"), Ok(Interval { secs: 0, millis: 0 }));
    assert_eq!(parse_duration("0s"), Ok(Interval { secs: 0, millis: 0 }));
}

#[test]
fn parse_trims_around_number() {
    assert_eq!(parse_duration(" 42 ms"), Ok(Interval { secs: 0, millis: 42 }));
    assert_eq!(parse_duration("\t7\ns"), Ok(Interval { secs: 7, millis: 0 }));
}

#[test]
fn parse_leading_plus() {
    assert_eq!(parse_duration("+5s"), Ok(Interval { secs: 5, millis: 0 }));
}

#[test]
fn parse_largest_value() {
    assert_eq!(
        parse_duration("18446744073709551615ms"),
        Ok(Interval { secs: 18446744073709551, millis: 615 })
    );
}

#[test]
fn parse_overflow_rejected() {
    assert_eq!(parse_duration("18446744073709551616ms"), Err(ConfigError::InvalidDuration));
}

#[test]
fn parse_minutes_rejected() {
    assert_eq!(parse_duration("1m"), Err(ConfigError::InvalidDuration));
}

#[test]
fn parse_garbage_rejected() {
    assert_eq!(parse_duration(""), Err(ConfigError::InvalidDuration));
    assert_eq!(parse_duration("ms"), Err(ConfigError::InvalidDuration));
    assert_eq!(parse_duration("s"), Err(ConfigError::InvalidDuration));
    assert_eq!(parse_duration("abc"), Err(ConfigError::InvalidDuration));
    assert_eq!(parse_duration("-5s"), Err(ConfigError::InvalidDuration));
    assert_eq!(parse_duration("5 0ms"), Err(ConfigError::InvalidDuration));
    assert_eq!(parse_duration("5ms "), Err(ConfigError::InvalidDuration));
}

#[test]
fn ms_suffix_wins_over_s() {
    // "500ms" is milliseconds, never 50 seconds with a leftover "m".
    assert_eq!(parse_duration("500ms"), Ok(Interval { secs: 0, millis: 500 }));
}

#[test]
fn invalid_duration_message() {
    assert_eq!(
        ConfigError::InvalidDuration.message(),
        "Invalid duration format (use '1s' or '500ms')"
    );
}
