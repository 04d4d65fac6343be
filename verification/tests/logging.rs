use shader_toy_slang::app::error_report;
use shader_toy_slang::app::logging::{multiline_format, to_decimal};

#[test]
fn decimal_numbers() {
    assert_eq!(to_decimal(0), "0");
    assert_eq!(to_decimal(7), "7");
    assert_eq!(to_decimal(42), "42");
    assert_eq!(to_decimal(1000), "1000");
    assert_eq!(to_decimal(u64::MAX), "18446744073709551615");
}

#[test]
fn short_record_has_opening_and_closing_lines() {
    let formatted = multiline_format("INFO", "12:00:00.000", "src/main.rs", Some(42), "hello", 120);
    assert_eq!(formatted, "\u{250f} INFO [12:00:00.000] [src/main.rs:42]\n\u{2517} hello");
}

#[test]
fn record_without_line_uses_zero() {
    let formatted = multiline_format("WARN", "t", "f.rs", None, "x", 120);
    assert_eq!(formatted, "\u{250f} WARN [t] [f.rs:0]\n\u{2517} x");
}

#[test]
fn long_record_is_wrapped_and_framed() {
    let formatted = multiline_format("INFO", "t", "f.rs", Some(1), "aaaa bbbb cccc dddd", 10);
    assert_eq!(
        formatted,
        "\u{250f} INFO [t]\n\u{2503} [f.rs:1]\n\u{2503} aaaa\n\u{2503} bbbb\n\u{2503} cccc\n\u{2517} dddd"
    );
}

#[test]
fn error_report_numbers_the_causes() {
    let report = error_report("top", &vec!["middle".to_string(), "root".to_string()], "bt");
    assert_eq!(
        report,
        "Application exited with an error!\n\ntop\n\nCaused by:\n  0| middle\n\n  1| root\n\n\n\nBacktrace:\nbt"
    );
}

#[test]
fn error_report_without_causes() {
    assert_eq!(
        error_report("top", &vec![], ""),
        "Application exited with an error!\n\ntop\n\nCaused by:\n\n\nBacktrace:\n"
    );
}
