use watchmymcserver::clock::local_now;
use watchmymcserver::clock::LocalStamp;
use watchmymcserver::server::format_lifecycle_line;
use watchmymcserver::server::format_output_line;
use watchmymcserver::textfmt::push_decimal;
use watchmymcserver::textfmt::push_two_digits;
use watchmymcserver::textfmt::push_year;

fn stamp() -> LocalStamp {
    LocalStamp { year: 2024, month: 1, day: 2, hour: 3, minute: 4, second: 5 }
}

#[test]
fn decimal_notation() {
    let mut s = String::new();
    push_decimal(&mut s, 0);
    assert_eq!(s, "0");
    let mut t = String::new();
    push_decimal(&mut t, 4000);
    assert_eq!(t, "4000");
    let mut u = String::new();
    push_decimal(&mut u, 1000);
    assert_eq!(u, "1000");
}

#[test]
fn two_digits_are_zero_padded() {
    let mut s = String::new();
    push_two_digits(&mut s, 5);
    assert_eq!(s, "05");
    let mut t = String::new();
    push_two_digits(&mut t, 59);
    assert_eq!(t, "59");
}

#[test]
fn years_are_padded_to_four_digits() {
    let mut s = String::new();
    push_year(&mut s, 2024);
    assert_eq!(s, "2024");
    let mut t = String::new();
    push_year(&mut t, 33);
    assert_eq!(t, "0033");
    let mut u = String::new();
    push_year(&mut u, -1);
    assert_eq!(u, "-0001");
    let mut v = String::new();
    push_year(&mut v, 12345);
    assert_eq!(v, "12345");
}

#[test]
fn lifecycle_line_exact_text() {
    let line = format_lifecycle_line(&stamp(), "starting server");
    assert_eq!(line, "[WATCHMYMCSERVER LOG 2024-01-02 03:04:05] starting server\n");
}

#[test]
fn output_line_exact_text() {
    let line = format_output_line(&stamp(), "Done (3.14s)! For help, type \"help\"");
    assert_eq!(
        line,
        "[WATCHMYMCSERVER SERVER 2024-01-02] Done (3.14s)! For help, type \"help\"\n"
    );
}

#[test]
fn clock_sample_is_in_range() {
    let now = local_now();
    assert!((1..=12).contains(&now.month));
    assert!((1..=31).contains(&now.day));
    assert!(now.hour < 24);
    assert!(now.minute < 60);
    assert!(now.second < 60);
}
