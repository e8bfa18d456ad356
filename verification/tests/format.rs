use hello_world::time::{format_duration, TimeSpan};

#[test]
fn benchmark_display_test() {
    assert_eq!("1ns".to_string(), format_duration(&TimeSpan::from_nanos(1)));
    assert_eq!("1μs".to_string(), format_duration(&TimeSpan::from_micros(1)));
    assert_eq!("1ms".to_string(), format_duration(&TimeSpan::from_millis(1)));
    assert_eq!("1s".to_string(), format_duration(&TimeSpan::from_secs(1)));
}

#[test]
fn nanosecond_boundaries() {
    assert_eq!("0ns", format_duration(&TimeSpan::from_nanos(0)));
    assert_eq!("1ns", format_duration(&TimeSpan::from_nanos(1)));
    assert_eq!("999ns", format_duration(&TimeSpan::from_nanos(999)));
    assert_eq!("1μs", format_duration(&TimeSpan::from_nanos(1000)));
}

#[test]
fn unit_scaling_truncates() {
    assert_eq!("1μs", format_duration(&TimeSpan::from_nanos(1999)));
    assert_eq!("999μs", format_duration(&TimeSpan::from_nanos(999_999)));
    assert_eq!("1ms", format_duration(&TimeSpan::from_nanos(1_000_000)));
    assert_eq!("42ms", format_duration(&TimeSpan::from_nanos(42_700_000)));
    assert_eq!("999ms", format_duration(&TimeSpan::from_nanos(999_999_999)));
}

#[test]
fn fractional_seconds_keep_full_precision() {
    assert_eq!("1.5s", format_duration(&TimeSpan::from_millis(1500)));
    assert_eq!("1s", format_duration(&TimeSpan::from_nanos(1_000_000_000)));
    assert_eq!("2.25s", format_duration(&TimeSpan::from_millis(2250)));
    assert_eq!("1.000000001s", format_duration(&TimeSpan::from_nanos(1_000_000_001)));
    assert_eq!("61.5s", format_duration(&TimeSpan::from_millis(61_500)));
    assert_eq!("3600s", format_duration(&TimeSpan::from_secs(3600)));
}
