use card_lists::timestamp::clock_text;
use card_lists::number_text::decimal_text;
use card_lists::timestamp::{
    format_duh, format_option, now_string, Report, ERROR_SLEEP_NANOS, SUCCESS_SLEEP_NANOS,
};

#[test]
fn format_duh_groups_by_three() {
    assert_eq!(format_duh(&0), "0");
    assert_eq!(format_duh(&7), "7");
    assert_eq!(format_duh(&999), "999");
    assert_eq!(format_duh(&1000), "1_000");
    assert_eq!(format_duh(&1001), "1_001");
    assert_eq!(format_duh(&1234567), "1_234_567");
    assert_eq!(format_duh(&100_000_000), "100_000_000");
    assert_eq!(
        format_duh(&u128::MAX),
        "340_282_366_920_938_463_463_374_607_431_768_211_455"
    );
}

#[test]
fn format_option_shows_na_for_nothing() {
    assert_eq!(format_option(&None), "N/A");
    assert_eq!(format_option(&Some(12345)), "12_345");
}

#[test]
fn decimal_text_has_no_separator() {
    assert_eq!(decimal_text(0), "0");
    assert_eq!(decimal_text(9), "9");
    assert_eq!(decimal_text(10), "10");
    assert_eq!(decimal_text(1234567890), "1234567890");
    assert_eq!(decimal_text(u64::MAX), "18446744073709551615");
}

#[test]
fn new_report_text() {
    assert_eq!(
        Report::new().to_text(),
        "number_of_cards: 0
number_of_errors: 0
success_sleep_nanos: 0
error_sleep_nanos: 0
success_server_nanos: 0
success_server_nanos_per_card: N/A
cards_per_error: N/A
error_server_nanos: 0
error_server_nanos_per_error: N/A
error_server_nanos_per_card: N/A"
    );
}

#[test]
fn report_text_with_ratios() {
    let r = Report::card_success(3_000_000)
        .add(Report::card_success(1_000_000))
        .add(Report::card_error(5_000))
        .add(Report::card_success(2_000_000));
    assert_eq!(r.number_of_cards, 3);
    assert_eq!(r.number_of_errors, 1);
    assert_eq!(
        r.to_text(),
        "number_of_cards: 3
number_of_errors: 1
success_sleep_nanos: 300_000_000
error_sleep_nanos: 100_000_000_000
success_server_nanos: 6_000_000
success_server_nanos_per_card: 2_000_000
cards_per_error: 3
error_server_nanos: 5_000
error_server_nanos_per_error: 5_000
error_server_nanos_per_card: 1_666"
    );
}

#[test]
fn card_success_and_error_reports() {
    let s = Report::card_success(42);
    assert_eq!(
        s,
        Report {
            number_of_cards: 1,
            number_of_errors: 0,
            success_sleep_nanos: SUCCESS_SLEEP_NANOS,
            error_sleep_nanos: 0,
            success_server_nanos: 42,
            error_server_nanos: 0,
        }
    );
    let e = Report::card_error(43);
    assert_eq!(
        e,
        Report {
            number_of_cards: 0,
            number_of_errors: 1,
            success_sleep_nanos: 0,
            error_sleep_nanos: ERROR_SLEEP_NANOS,
            success_server_nanos: 0,
            error_server_nanos: 43,
        }
    );
}

#[test]
fn report_sum_laws_on_values() {
    let a = Report::card_success(10);
    let b = Report::card_error(20);
    let c = Report::card_success(30);
    assert_eq!(Report::new().add(a), a);
    assert_eq!(a.add(Report::new()), a);
    assert_eq!(a.add(b), b.add(a));
    assert_eq!(a.add(b).add(c), a.add(b.add(c)));
}

#[test]
fn can_add_detects_overflow() {
    let big = Report {
        number_of_cards: u128::MAX,
        number_of_errors: 0,
        success_sleep_nanos: 0,
        error_sleep_nanos: 0,
        success_server_nanos: 0,
        error_server_nanos: 0,
    };
    assert!(!big.can_add(&Report::card_success(1)));
    assert!(big.can_add(&Report::card_error(1)));
    assert!(Report::new().can_add(&big));
}

#[test]
fn now_string_is_a_time_of_day() {
    let t = now_string();
    let b = t.as_bytes();
    assert_eq!(b.len(), 8);
    assert_eq!(b[2], b':');
    assert_eq!(b[5], b':');
    for i in [0usize, 1, 3, 4, 6, 7] {
        assert!(b[i].is_ascii_digit());
    }
    let hour: u32 = t[0..2].parse().unwrap();
    let minute: u32 = t[3..5].parse().unwrap();
    let second: u32 = t[6..8].parse().unwrap();
    assert!(hour < 24 && minute < 60 && second <= 60);
}

#[test]
fn clock_text_of_given_times() {
    assert_eq!(clock_text(0, 0, 0, 0), "00:00:00");
    assert_eq!(clock_text(9, 5, 7, 999_999_999), "09:05:07");
    assert_eq!(clock_text(23, 59, 59, 0), "23:59:59");
    assert_eq!(clock_text(23, 59, 59, 1_000_000_000), "23:59:60");
    assert_eq!(clock_text(13, 30, 45, 123), "13:30:45");
}
