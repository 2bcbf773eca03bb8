use light_client_commons::logging::{
    default_subscriber, json_subscriber, log_setup, parse_upper_level, EventFormat, Level,
    LEVEL_ERROR_TEXT,
};
use light_client_commons::parse_log_level;

fn named(text: &str, level: Level) {
    let other = if level == Level::Warn { Level::Debug } else { Level::Warn };
    let (found, error) = parse_log_level(text, other);
    assert_eq!(found, level, "{}", text);
    assert!(error.is_none(), "{}", text);
}

fn unnamed(text: &str) {
    for default in [Level::Error, Level::Info, Level::Trace] {
        let (found, error) = parse_log_level(text, default);
        assert_eq!(found, default, "{}", text);
        assert_eq!(error.unwrap().message, LEVEL_ERROR_TEXT);
    }
}

#[test]
fn words_name_levels_in_any_case() {
    named("error", Level::Error);
    named("WARN", Level::Warn);
    named("Info", Level::Info);
    named("dEbUg", Level::Debug);
    named("trace", Level::Trace);
}

#[test]
fn numbers_name_levels() {
    named("1", Level::Error);
    named("2", Level::Warn);
    named("3", Level::Info);
    named("4", Level::Debug);
    named("5", Level::Trace);
    named("+3", Level::Info);
    named("0005", Level::Trace);
}

#[test]
fn other_texts_fall_back_to_the_default() {
    unnamed("");
    unnamed("0");
    unnamed("6");
    unnamed("-1");
    unnamed("+");
    unnamed("++1");
    unnamed(" info");
    unnamed("verbose");
    unnamed("warning");
    unnamed("off");
    unnamed("18446744073709551617");
}

#[test]
fn the_text_is_put_in_upper_case_first() {
    // The dotless i has an ASCII letter as its upper case.
    named("\u{131}nfo", Level::Info);
    let (level, error) = parse_upper_level("\u{131}nfo", Level::Trace);
    assert_eq!(level, Level::Trace);
    assert!(error.is_some());
}

#[test]
fn an_upper_case_text_is_taken_as_it_is() {
    assert_eq!(parse_upper_level("DEBUG", Level::Error).0, Level::Debug);
    assert_eq!(parse_upper_level("2", Level::Error).0, Level::Warn);
    assert_eq!(parse_upper_level("NOISE", Level::Error).0, Level::Error);
}

#[test]
fn the_error_says_what_is_expected() {
    let (_, error) = parse_log_level("loud", Level::Info);
    assert_eq!(
        error.unwrap().message,
        "error parsing level: expected one of \"error\", \"warn\", \"info\", \"debug\", \
         \"trace\", or a number 1-5"
    );
}

#[test]
fn subscribers_differ_in_format_and_span_events() {
    let json = json_subscriber(Level::Debug);
    assert_eq!(json.max_level, Level::Debug);
    assert_eq!(json.format, EventFormat::Json);
    assert!(!json.span_close_events);
    let full = default_subscriber(Level::Warn);
    assert_eq!(full.max_level, Level::Warn);
    assert_eq!(full.format, EventFormat::Full);
    assert!(full.span_close_events);
}

#[test]
fn the_log_falls_back_to_info_with_a_warning() {
    let setup = log_setup("loud", true);
    assert_eq!(setup.subscriber, json_subscriber(Level::Info));
    assert_eq!(setup.warning.unwrap().message, LEVEL_ERROR_TEXT);
    let setup = log_setup("trace", false);
    assert_eq!(setup.subscriber, default_subscriber(Level::Trace));
    assert!(setup.warning.is_none());
}
