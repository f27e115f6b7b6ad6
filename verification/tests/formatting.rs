use core::time::Duration as StdDuration;

use chrono::Duration as ChronoDuration;
use time::Duration as TimeDuration;

use human_duration::prelude::{decompose, DurationExt};
use human_duration::types::{CustomFormatter, DefaultFormatter};
use human_duration::{Duration, Formatter, Truncate, Unit};

#[test]
fn test_nano() {
    let duration = time::Duration::nanoseconds(131_200_001_301_021_123);
    println!("duration: {}", duration);

    let human = duration.human(Truncate::Nano);
    println!("duration: {}", human.to_text());
    assert_eq!(
        "4years 1month 27days 2h 36m 17s 301ms 21µs 123ns",
        human.to_text()
    );

    let human2 = duration.human(Truncate::Day);
    println!("duration with days: {}", human2.to_text());
    assert_eq!("4years 1month 27days", human2.to_text());
}

#[test]
fn test_micro() {
    let duration = time::Duration::microseconds(123);
    println!("duration: {}", duration);

    let human = duration.human(Truncate::Micro);
    println!("duration: {}", human.to_text());

    assert_eq!("123µs", duration.to_string());
    assert_eq!("123µs", human.to_text());
}

#[test]
fn test_millis() {
    let duration = time::Duration::milliseconds(200_200_111);
    println!("duration: {}", duration);

    let human = duration.human_with_format(Truncate::Millis, DefaultFormatter);
    println!("human: {}", human.to_text());

    assert_eq!("2d7h36m40s111ms", duration.to_string());
    assert_eq!("2days 7h 36m 40s 111ms", human.to_text());
}

#[test]
fn test_seconds() {
    let duration = time::Duration::seconds(31_556_952);
    let human = duration.human_with_format(Truncate::Second, DefaultFormatter);
    println!("human: {}", human.to_text());
    assert_eq!("1year", human.to_text());
}

#[test]
fn test_minutes() {
    let duration = time::Duration::seconds(556_952);
    let human = duration.human_with_format(Truncate::Minute, DefaultFormatter);
    println!("human: {}", human.to_text());
    assert_eq!("6days 10h 42m", human.to_text());
}

#[test]
fn test_hours() {
    let duration = time::Duration::seconds(556_952);
    let human = duration.human_with_format(Truncate::Hour, DefaultFormatter);
    println!("human: {}", human.to_text());
    assert_eq!("6days 10h", human.to_text());
}

#[test]
fn test_days() {
    let duration = time::Duration::seconds(556_952);
    let human = duration.human_with_format(Truncate::Day, DefaultFormatter);
    println!("human: {}", human.to_text());
    assert_eq!("6days", human.to_text());
}

#[test]
fn test_months() {
    let duration = time::Duration::seconds(556_952);
    let human = duration.human_with_format(Truncate::Month, DefaultFormatter);
    println!("human: {}", human.to_text());
    assert_eq!("0months", human.to_text());
}

#[test]
fn test_years() {
    let duration = time::Duration::seconds(456_999_556_952);
    println!("{duration}");

    let human = duration.human_with_format(Truncate::Year, DefaultFormatter);
    println!("human: {}", human.to_text());
    assert_eq!("14481years", human.to_text());
}

#[test]
fn test_chrono_duration() {
    let duration = chrono::Duration::nanoseconds(9223372036854775807);
    let std_duration: StdDuration = duration.to_std().unwrap();
    let time_duration: TimeDuration = time::Duration::try_from(std_duration).unwrap();
    println!("duration: {duration}");
    println!("std duration: {time_duration}");

    let human = duration.human(Truncate::Nano);
    println!("human: {}", human.to_text());

    assert_eq!(
        "292years 3months 9days 20h 40m 4s 854ms 775µs 807ns",
        human.to_text()
    );
}

#[test]
fn test_convert_chrono_duration() {
    let duration: ChronoDuration = chrono::Duration::nanoseconds(9223372036854775807);
    let converted: Duration = Duration::from_chrono(duration);
    let duration2: ChronoDuration = converted.to_chrono();
    assert_eq!(duration, duration2);
}

#[test]
fn test_convert_time_duration() {
    let duration: TimeDuration = time::Duration::nanoseconds(123_456_789);
    let converted: Duration = Duration::from_time(duration);
    let duration2: TimeDuration = converted.to_time();
    assert_eq!(duration, duration2);
}

#[test]
fn test_convert_std_time_duration() {
    let duration: StdDuration = StdDuration::new(123_456_789, 999);
    let converted: Duration = Duration::from_std(duration);
    let duration2: StdDuration = converted.to_std();
    assert_eq!(duration, duration2);
}

#[test]
fn test_custom_formatter() {
    let my_formatter = CustomFormatter::new(
        Unit::new(" anno", " anni"),
        Unit::new(" mese", " mesi"),
        Unit::new(" giorno", " giorni"),
        Unit::new(" ora", " ore"),
        Unit::new(" minuto", " minuti"),
        Unit::new(" secondo", " secondi"),
        Unit::new(" millisecondo", " millisecondi"),
        Unit::new(" microsecondo", " microsecondi"),
        Unit::new(" nanosecondo", " nanosecondi"),
    );

    let duration = TimeDuration::nanoseconds(150_345_202_557_001);
    let human_default = duration.human(Truncate::Nano);
    let human = duration.human_with_format(Truncate::Nano, my_formatter);

    println!("human default: {}", human_default.to_text());
    println!("human: {}", human.to_text());

    assert_eq!("1day 17h 45m 45s 202ms 557µs 1ns", human_default.to_text());
    assert_eq!(
        "1 giorno 17 ore 45 minuti 45 secondi 202 millisecondi 557 microsecondi 1 nanosecondo",
        human.to_text()
    );
}

#[test]
fn test_zero_renders_one_fragment_each_level() {
    let parts = decompose(0, 0);
    let f = DefaultFormatter;
    assert_eq!("0years", f.format(parts, Truncate::Year));
    assert_eq!("0months", f.format(parts, Truncate::Month));
    assert_eq!("0days", f.format(parts, Truncate::Day));
    assert_eq!("0h", f.format(parts, Truncate::Hour));
    assert_eq!("0m", f.format(parts, Truncate::Minute));
    assert_eq!("0s", f.format(parts, Truncate::Second));
    assert_eq!("0ms", f.format(parts, Truncate::Millis));
    assert_eq!("0µs", f.format(parts, Truncate::Micro));
    assert_eq!("0ns", f.format(parts, Truncate::Nano));
}

#[test]
fn test_negative_duration_is_signed() {
    let parts = decompose(-90_061, 0);
    let f = DefaultFormatter;
    assert_eq!("-1day 1h 1m 1s", f.format(parts, Truncate::Second));
}

#[test]
fn test_year_truncation_single_fragment_negative_zero_years() {
    let parts = decompose(-5, 0);
    let f = DefaultFormatter;
    assert_eq!("-0years", f.format(parts, Truncate::Year));
}

#[test]
fn test_decompose_bounds_at_extremes() {
    let p = decompose(i64::MIN, -999_999_999);
    assert_eq!(p.original_seconds, i64::MIN);
    assert_eq!(p.original_nanos, -999_999_999);
    assert!((-11..=0).contains(&p.months));
    assert!((-30..=0).contains(&p.days));
    assert!((-23..=0).contains(&p.hours));
    assert!((-59..=0).contains(&p.minutes));
    assert!((-59..=0).contains(&p.seconds));
    assert!((-999..=0).contains(&p.millis));
    assert!((-999..=0).contains(&p.micros));
    assert!((-999..=0).contains(&p.nanos));
    assert_eq!(p.years, i64::MIN / 31_556_952);
}

#[test]
fn test_decompose_concrete_components() {
    let p = decompose(200_200, 111_000_000);
    assert_eq!(p.years, 0);
    assert_eq!(p.months, 0);
    assert_eq!(p.days, 2);
    assert_eq!(p.hours, 7);
    assert_eq!(p.minutes, 36);
    assert_eq!(p.seconds, 40);
    assert_eq!(p.millis, 111);
    assert_eq!(p.micros, 0);
    assert_eq!(p.nanos, 0);
    assert!(!p.is_empty());
    assert!(decompose(0, 0).is_empty());
}

#[test]
fn test_time_adapter_splits_seconds_and_nanos() {
    let converted = Duration::from_time(time::Duration::nanoseconds(1_500_000_000));
    assert_eq!(converted.secs, 1);
    assert_eq!(converted.nanos, 500_000_000);
    let human = time::Duration::nanoseconds(1_500_000_000).human(Truncate::Nano);
    assert_eq!("1s 500ms", human.to_text());
}

#[test]
fn test_negative_chrono_round_trip() {
    let duration: ChronoDuration = chrono::Duration::nanoseconds(-1_500_000_000);
    let converted: Duration = Duration::from_chrono(duration);
    assert_eq!(converted.secs, -1);
    assert_eq!(converted.nanos, -500_000_000);
    let duration2: ChronoDuration = converted.to_chrono();
    assert_eq!(duration, duration2);
}

#[test]
fn test_negative_time_round_trip() {
    let duration: TimeDuration = time::Duration::nanoseconds(-1_500_000_000);
    let converted: Duration = Duration::from_time(duration);
    assert_eq!(converted.secs, -1);
    assert_eq!(converted.nanos, -500_000_000);
    let duration2: TimeDuration = converted.to_time();
    assert_eq!(duration, duration2);
}

#[test]
fn test_to_std_takes_absolute_value() {
    let negative = Duration {
        secs: -5,
        nanos: -500_000_000,
    };
    assert_eq!(StdDuration::new(5, 500_000_000), negative.to_std());
}

#[test]
fn test_std_adapter_zero() {
    let human = StdDuration::new(0, 0).human(Truncate::Minute);
    assert_eq!("0m", human.to_text());
}

#[test]
fn test_formatting_is_repeatable() {
    let duration = time::Duration::seconds(556_952);
    let human = duration.human_with_format(Truncate::Minute, DefaultFormatter);
    assert_eq!(human.to_text(), human.to_text());
}
