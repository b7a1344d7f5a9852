use learn_helper::datetime::{date_time, date_time1, option_date_time, option_date_time1, DateTime};
use learn_helper::parse::{base64_string, int_to_bool, nonempty_string, str_to_bool1, str_to_bool2};

fn dt(year: u32, month: u32, day: u32, hour: u32, minute: u32, second: u32) -> DateTime {
    DateTime { year, month, day, hour, minute, second }
}

#[test]
fn minute_precision_format_parses() {
    assert_eq!(date_time("2023-03-01 08:00"), Some(dt(2023, 3, 1, 8, 0, 0)));
}

#[test]
fn second_precision_format_parses() {
    assert_eq!(date_time1("2023-03-01 08:00:05"), Some(dt(2023, 3, 1, 8, 0, 5)));
}

#[test]
fn formats_do_not_accept_each_other() {
    assert_eq!(date_time("2023-03-01 08:00:00"), None);
    assert_eq!(date_time1("2023-03-01 08:00"), None);
}

#[test]
fn empty_string_is_absent_for_optional_variants() {
    assert_eq!(option_date_time(Some("")), Ok(None));
    assert_eq!(option_date_time1(Some("")), Ok(None));
    assert_eq!(option_date_time(None), Ok(None));
    assert_eq!(option_date_time1(None), Ok(None));
    assert_eq!(option_date_time(Some("2023-03-01 08:00")), Ok(Some(dt(2023, 3, 1, 8, 0, 0))));
    assert_eq!(option_date_time(Some("not a date")), Err(()));
}

#[test]
fn calendar_rules_are_enforced() {
    assert_eq!(date_time("2023-02-29 08:00"), None);
    assert_eq!(date_time("2024-02-29 08:00"), Some(dt(2024, 2, 29, 8, 0, 0)));
    assert_eq!(date_time("2100-02-29 08:00"), None);
    assert_eq!(date_time("2000-02-29 08:00"), Some(dt(2000, 2, 29, 8, 0, 0)));
    assert_eq!(date_time("2023-04-31 08:00"), None);
    assert_eq!(date_time("2023-03-01 24:00"), None);
    assert_eq!(date_time("2023-13-01 08:00"), None);
    assert_eq!(date_time("2023-00-01 08:00"), None);
}

#[test]
fn yes_token_boolean() {
    assert!(str_to_bool1("\u{662f}"));
    assert!(!str_to_bool1("\u{5426}"));
    assert!(!str_to_bool1(""));
    assert!(!str_to_bool1("yes"));
}

#[test]
fn digit_boolean() {
    assert!(str_to_bool2("1"));
    assert!(!str_to_bool2("0"));
    assert!(!str_to_bool2("2"));
    assert!(!str_to_bool2(""));
}

#[test]
fn integer_boolean() {
    assert!(int_to_bool(1));
    assert!(int_to_bool(17));
    assert!(!int_to_bool(0));
}

#[test]
fn nonempty_filter() {
    assert_eq!(nonempty_string(None), None);
    assert_eq!(nonempty_string(Some(String::new())), None);
    assert_eq!(nonempty_string(Some("x".to_string())), Some("x".to_string()));
}

#[test]
fn base64_content_decodes() {
    assert_eq!(base64_string(Some("aGVsbG8=")), Ok("hello".to_string()));
}

#[test]
fn base64_missing_field_is_empty_text() {
    assert_eq!(base64_string(None), Ok(String::new()));
    assert_eq!(base64_string(Some("")), Ok(String::new()));
}

#[test]
fn base64_bad_input_fails() {
    assert_eq!(base64_string(Some("!!!not base64!!!")), Err(()));
    // valid base64 whose bytes are not UTF-8
    assert_eq!(base64_string(Some("/w==")), Err(()));
}
