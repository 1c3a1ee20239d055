use meo_wifi::log::{error, info, render_line, warn, Entry, Level};

#[test]
fn entries_carry_level_and_message() {
    assert_eq!(info("a"), Entry { level: Level::Info, message: "a".to_string() });
    assert_eq!(warn("b"), Entry { level: Level::Warn, message: "b".to_string() });
    assert_eq!(error("c"), Entry { level: Level::Error, message: "c".to_string() });
    assert_eq!(info("a").clone(), info("a"));
}

#[test]
fn levels_have_their_subjects() {
    assert_eq!(Level::Info.subject(), "INFO");
    assert_eq!(Level::Warn.subject(), "WARN");
    assert_eq!(Level::Error.subject(), "ERROR");
}

#[test]
fn line_has_time_subject_and_message_in_columns() {
    assert_eq!(render_line(5, "INFO", "hi"), "     5:INFO :hi");
    assert_eq!(render_line(5, "INFO", "hi"), format!("{:6}:{:5}:{}", 5, "INFO", "hi"));
    assert_eq!(info("connection active").render(0), "     0:INFO :connection active");
    assert_eq!(warn("connection not main").render(42), "    42:WARN :connection not main");
    assert_eq!(error("No internet connection").render(3600), "  3600:ERROR:No internet connection");
}

#[test]
fn wide_values_are_not_cut() {
    assert_eq!(render_line(123456, "INFO", ""), "123456:INFO :");
    assert_eq!(render_line(1234567, "SUBJECT", "m"), "1234567:SUBJECT:m");
    assert_eq!(
        render_line(u64::MAX, "WARN", "late"),
        format!("{:6}:{:5}:{}", u64::MAX, "WARN", "late")
    );
    assert_eq!(render_line(u64::MAX, "WARN", "late"), "18446744073709551615:WARN :late");
}

#[test]
fn columns_are_counted_in_characters() {
    assert_eq!(render_line(10, "é", "ü: x"), "    10:é    :ü: x");
    assert_eq!(render_line(10, "é", "ü: x"), format!("{:6}:{:5}:{}", 10, "é", "ü: x"));
    assert_eq!(render_line(100, "", ""), "   100:     :");
}

#[test]
fn every_digit_is_written() {
    assert_eq!(render_line(9876543210, "", ""), "9876543210:     :");
    assert_eq!(render_line(1000000, "", ""), "1000000:     :");
    for seconds in [0u64, 9, 10, 99, 100, 999_999, 1_000_000, 4_294_967_296] {
        assert_eq!(render_line(seconds, "INFO", "x"), format!("{:6}:{:5}:{}", seconds, "INFO", "x"));
    }
}
