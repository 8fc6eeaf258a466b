use student_registrator::devtime::{to_device_time, validity_end, DeviceTime};
use student_registrator::text::{
    i64_to_dec, join_strings, json_escape, trim_ascii, u64_to_dec, u64_to_dec2,
};

fn dt(year: i32, month: u32, day: u32, hour: u32, minute: u32, second: u32) -> DeviceTime {
    DeviceTime { year, month, day, hour, minute, second }
}

#[test]
fn decimal_rendering() {
    assert_eq!(u64_to_dec(0), "0");
    assert_eq!(u64_to_dec(7), "7");
    assert_eq!(u64_to_dec(1234567890), "1234567890");
    assert_eq!(u64_to_dec(u64::MAX), "18446744073709551615");
}

#[test]
fn signed_decimal_rendering() {
    assert_eq!(i64_to_dec(-42), "-42");
    assert_eq!(i64_to_dec(0), "0");
    assert_eq!(i64_to_dec(i64::MIN), "-9223372036854775808");
}

#[test]
fn two_digit_padding() {
    assert_eq!(u64_to_dec2(5), "05");
    assert_eq!(u64_to_dec2(0), "00");
    assert_eq!(u64_to_dec2(42), "42");
}

#[test]
fn json_escaping() {
    assert_eq!(json_escape("plain"), "plain");
    assert_eq!(json_escape("a\"b"), "a\\\"b");
    assert_eq!(json_escape("back\\slash"), "back\\\\slash");
    assert_eq!(json_escape("line\nbreak\ttab\rcr"), "line\\nbreak\\ttab\\rcr");
    assert_eq!(json_escape("\u{1}"), "\\u0001");
    assert_eq!(json_escape("\u{1f}"), "\\u001f");
    assert_eq!(json_escape("uni\u{0441}ode"), "uni\u{0441}ode");
}

#[test]
fn joining_error_lists() {
    let items = vec!["a".to_string(), "b".to_string(), "c".to_string()];
    assert_eq!(join_strings(&items, "; "), "a; b; c");
    let one = vec!["only".to_string()];
    assert_eq!(join_strings(&one, "; "), "only");
    let none: Vec<String> = Vec::new();
    assert_eq!(join_strings(&none, "; "), "");
}

#[test]
fn trimming() {
    assert_eq!(trim_ascii("  a b \n"), "a b");
    assert_eq!(trim_ascii("\t\r\n "), "");
    assert_eq!(trim_ascii("solid"), "solid");
}

#[test]
fn device_time_format() {
    let t = dt(2024, 1, 15, 10, 30, 0);
    assert_eq!(to_device_time(&t), "2024-01-15T10:30:00");
    let t2 = dt(1999, 12, 31, 23, 59, 59);
    assert_eq!(to_device_time(&t2), "1999-12-31T23:59:59");
}

#[test]
fn validity_window_ten_years() {
    let t = dt(2024, 1, 15, 10, 30, 0);
    let end = validity_end(&t);
    assert_eq!(to_device_time(&end), "2034-01-15T10:30:00");
}

#[test]
fn validity_window_leap_day_falls_back() {
    let t = dt(2024, 2, 29, 8, 0, 0);
    let end = validity_end(&t);
    // 2034 is not a leap year: the window closes where it opened.
    assert_eq!(to_device_time(&end), "2024-02-29T08:00:00");
}

#[test]
fn validity_window_leap_day_kept_when_target_is_leap() {
    let t = dt(2030, 2, 28, 8, 0, 0);
    let end = validity_end(&t);
    assert_eq!(to_device_time(&end), "2040-02-28T08:00:00");
}
