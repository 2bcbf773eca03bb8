//! The verbosity of the log and the subscriber that writes it.

use vstd::prelude::*;

verus! {

/// How verbose the log is: an event is written when its level is at most this one.
#[derive(Clone, Copy, Debug, PartialEq, Eq, Structural)]
pub enum Level {
    Error,
    Warn,
    Info,
    Debug,
    Trace,
}

/// Why a text names no level.
#[derive(Debug)]
pub struct LevelError {
    pub message: String,
}

impl View for LevelError {
    type V = Seq<char>;

    open spec fn view(&self) -> Seq<char> {
        self.message@
    }
}

/// What every [`LevelError`] says.
pub const LEVEL_ERROR_TEXT: &'static str =
    "error parsing level: expected one of \"error\", \"warn\", \"info\", \"debug\", \"trace\", or a number 1-5";

/// The type of the error that `tracing` reports for a text that names no level. It is carried
/// from the parse to its text and nothing is read of it.
#[verifier::external_type_specification]
#[verifier::external_body]
pub struct ExParseLevelError(tracing::metadata::ParseLevelError);

pub open spec fn is_digit(c: char) -> bool {
    '0' <= c <= '9'
}

/// The number that a sequence of decimal digits writes.
pub open spec fn decimal(digits: Seq<char>) -> int
    decreases digits.len(),
{
    if digits.len() == 0 {
        0
    } else {
        10 * decimal(digits.drop_last()) + (digits.last() as int - '0' as int)
    }
}

/// `text` without one leading plus sign.
pub open spec fn unsigned(text: Seq<char>) -> Seq<char> {
    if text.len() > 0 && text[0] == '+' {
        text.drop_first()
    } else {
        text
    }
}

/// `text` writes the number `n`: an optional plus sign, then one or more digits.
pub open spec fn writes_number(text: Seq<char>, n: int) -> bool {
    let digits = unsigned(text);
    &&& digits.len() > 0
    &&& forall|i: int| 0 <= i < digits.len() ==> is_digit(#[trigger] digits[i])
    &&& decimal(digits) == n
}

pub open spec fn ascii_upper(c: char) -> char {
    if 'a' <= c <= 'z' {
        (c as int - 'a' as int + 'A' as int) as char
    } else {
        c
    }
}

/// The texts are equal but for the case of ASCII letters.
pub open spec fn same_but_for_case(a: Seq<char>, b: Seq<char>) -> bool {
    &&& a.len() == b.len()
    &&& forall|i: int| 0 <= i < a.len() ==> ascii_upper(#[trigger] a[i]) == ascii_upper(b[i])
}

/// The level that `text` names: by a number from 1 to 5, or by a word in any case.
pub open spec fn level_named(text: Seq<char>) -> Option<Level> {
    if writes_number(text, 1) || same_but_for_case(text, "error"@) {
        Some(Level::Error)
    } else if writes_number(text, 2) || same_but_for_case(text, "warn"@) {
        Some(Level::Warn)
    } else if writes_number(text, 3) || same_but_for_case(text, "info"@) {
        Some(Level::Info)
    } else if writes_number(text, 4) || same_but_for_case(text, "debug"@) {
        Some(Level::Debug)
    } else if writes_number(text, 5) || same_but_for_case(text, "trace"@) {
        Some(Level::Trace)
    } else {
        None
    }
}

/// The text with its ASCII letters in upper case.
pub open spec fn ascii_uppercase(text: Seq<char>) -> Seq<char> {
    text.map_values(|c: char| ascii_upper(c))
}

/// The text in upper case, as Unicode defines it for every character.
pub uninterp spec fn uppercase(text: Seq<char>) -> Seq<char>;

pub open spec fn is_ascii_text(text: Seq<char>) -> bool {
    forall|i: int| 0 <= i < text.len() ==> (#[trigger] text[i] as int) < 128
}

/// Calls `str::to_uppercase` of std. The result is a function of the text; on a text of ASCII
/// characters the letters `a` to `z` become `A` to `Z` and the rest stays.
#[verifier::external_body]
fn to_uppercase(text: &str) -> (upper: String)
    ensures
        upper@ == uppercase(text@),
        is_ascii_text(text@) ==> upper@ == ascii_uppercase(text@),
{
    text.to_uppercase()
}

/// Calls `<tracing::Level as FromStr>::from_str`. It accepts what parses as a `usize` from 1 to 5
/// and the five level words in any ASCII case, and nothing else.
#[verifier::external_body]
fn parse_level(text: &str) -> (level: Result<Level, tracing::metadata::ParseLevelError>)
    ensures
        level is Ok <==> level_named(text@) is Some,
        level matches Ok(l) ==> level_named(text@) == Some(l),
{
    match text.parse::<tracing::Level>() {
        Ok(tracing::Level::ERROR) => Ok(Level::Error),
        Ok(tracing::Level::WARN) => Ok(Level::Warn),
        Ok(tracing::Level::INFO) => Ok(Level::Info),
        Ok(tracing::Level::DEBUG) => Ok(Level::Debug),
        Ok(tracing::Level::TRACE) => Ok(Level::Trace),
        Err(error) => Err(error),
    }
}

/// Calls `<tracing::metadata::ParseLevelError as Display>::fmt` through `to_string`. The error
/// holds nothing, and its text is always the same.
#[verifier::external_body]
fn level_error_text(error: &tracing::metadata::ParseLevelError) -> (text: String)
    ensures
        text@ == LEVEL_ERROR_TEXT@,
{
    error.to_string()
}

/// A text and the same text in ASCII upper case name the same level, or both name none.
pub proof fn upper_case_names_the_same_level(text: Seq<char>)
    ensures
        level_named(ascii_uppercase(text)) == level_named(text),
{
    let upper = ascii_uppercase(text);
    assert forall|n: int| writes_number(upper, n) == writes_number(text, n) by {
        if writes_number(upper, n) || writes_number(text, n) {
            assert forall|i: int| 0 <= i < text.len() implies upper[i] == text[i] by {
                if upper[0] == '+' {
                    assert(i > 0 ==> unsigned(upper)[i - 1] == upper[i]);
                    assert(i > 0 ==> unsigned(text)[i - 1] == text[i]);
                } else {
                    assert(unsigned(upper)[i] == upper[i]);
                    assert(unsigned(text)[i] == text[i]);
                }
            }
            assert(upper =~= text);
        }
    }
    assert forall|word: Seq<char>|
        same_but_for_case(upper, word) == same_but_for_case(text, word) by {
        if same_but_for_case(upper, word) {
            assert forall|i: int| 0 <= i < text.len() implies ascii_upper(#[trigger] text[i])
                == ascii_upper(word[i]) by {
                assert(ascii_upper(upper[i]) == ascii_upper(word[i]));
            }
        }
    }
}

/// `answer` is the level that `named` holds, with no error, or else `default` with the error.
pub open spec fn level_or_default(
    named: Option<Level>,
    default: Level,
    answer: (Level, Option<LevelError>),
) -> bool {
    match named {
        Some(level) => answer.0 == level && answer.1 is None,
        None => answer.0 == default && answer.1 is Some && answer.1->0@ == LEVEL_ERROR_TEXT@,
    }
}

/// The level that an upper-case text names, or `default` and why the text names none.
pub fn parse_upper_level(upper: &str, default: Level) -> (answer: (Level, Option<LevelError>))
    ensures
        level_or_default(level_named(upper@), default, answer),
{
    match parse_level(upper) {
        Ok(level) => (level, None),
        Err(error) => (default, Some(LevelError { message: level_error_text(&error) })),
    }
}

/// The level that `log_level` names once it is in upper case, or `default` and why it names none.
pub fn parse_log_level(log_level: &str, default: Level) -> (answer: (Level, Option<LevelError>))
    ensures
        level_or_default(level_named(uppercase(log_level@)), default, answer),
        is_ascii_text(log_level@) ==> level_or_default(level_named(log_level@), default, answer),
        level_named(uppercase(log_level@)) matches Some(level) ==> answer.0 == level && answer.1 is
            None,
        level_named(uppercase(log_level@)) is None ==> answer.0 == default && answer.1 is Some
            && answer.1->0.message@ == LEVEL_ERROR_TEXT@,
{
    let upper = to_uppercase(log_level);
    proof {
        upper_case_names_the_same_level(log_level@);
    }
    parse_upper_level(upper.as_str(), default)
}

/// How the lines of the log are laid out.
#[derive(Clone, Copy, Debug, PartialEq, Eq, Structural)]
pub enum EventFormat {
    /// One JSON object per event.
    Json,
    /// One line of text per event.
    Full,
}

/// The settings of the subscriber that receives every event of the process.
#[derive(Clone, Copy, Debug, PartialEq, Eq, Structural)]
pub struct Subscriber {
    pub max_level: Level,
    pub format: EventFormat,
    /// An event is written when a span closes.
    pub span_close_events: bool,
}

/// The subscriber that writes JSON: closing a span writes nothing.
pub fn json_subscriber(log_level: Level) -> (subscriber: Subscriber)
    ensures
        subscriber == (Subscriber {
            max_level: log_level,
            format: EventFormat::Json,
            span_close_events: false,
        }),
{
    Subscriber { max_level: log_level, format: EventFormat::Json, span_close_events: false }
}

/// The subscriber that writes plain text: closing a span writes an event.
pub fn default_subscriber(log_level: Level) -> (subscriber: Subscriber)
    ensures
        subscriber == (Subscriber {
            max_level: log_level,
            format: EventFormat::Full,
            span_close_events: true,
        }),
{
    Subscriber { max_level: log_level, format: EventFormat::Full, span_close_events: true }
}

/// How the log is set up: the subscriber to install, and the warning to write once it is there.
#[derive(Debug)]
pub struct LogSetup {
    pub subscriber: Subscriber,
    pub warning: Option<LevelError>,
}

/// What a [`LogSetup`] says.
pub struct LogSetupView {
    pub subscriber: Subscriber,
    pub warning: Option<Seq<char>>,
}

impl View for LogSetup {
    type V = LogSetupView;

    open spec fn view(&self) -> LogSetupView {
        LogSetupView {
            subscriber: self.subscriber,
            warning: match self.warning {
                Some(error) => Some(error@),
                None => None,
            },
        }
    }
}

/// The setup for a configured format and for the level that the configured text names: when it
/// names none, the level is `Info` and the setup holds a warning.
pub open spec fn log_setup_for(named: Option<Level>, json: bool) -> LogSetupView {
    LogSetupView {
        subscriber: Subscriber {
            max_level: match named {
                Some(level) => level,
                None => Level::Info,
            },
            format: if json {
                EventFormat::Json
            } else {
                EventFormat::Full
            },
            span_close_events: !json,
        },
        warning: match named {
            Some(_) => None,
            None => Some(LEVEL_ERROR_TEXT@),
        },
    }
}

/// The setup of the log for a configured level text and format.
pub fn log_setup(log_level: &str, json: bool) -> (setup: LogSetup)
    ensures
        setup@ == log_setup_for(level_named(uppercase(log_level@)), json),
        is_ascii_text(log_level@) ==> setup@ == log_setup_for(level_named(log_level@), json),
        level_named(uppercase(log_level@)) matches Some(level) ==> setup.subscriber.max_level
            == level && setup.warning is None,
        level_named(uppercase(log_level@)) is None ==> setup.subscriber.max_level == Level::Info
            && setup.warning is Some && setup.warning->0.message@ == LEVEL_ERROR_TEXT@,
        setup.subscriber.format == EventFormat::Json <==> json,
        setup.subscriber.span_close_events <==> !json,
{
    let (level, warning) = parse_log_level(log_level, Level::Info);
    let subscriber = if json {
        json_subscriber(level)
    } else {
        default_subscriber(level)
    };
    LogSetup { subscriber, warning }
}

/// Either subscriber shows events up to the level that it was asked for; they differ in how they
/// lay the events out, and only the one for plain text shows that a span closes.
pub proof fn either_subscriber_keeps_the_level(level: Level, json: Subscriber, text: Subscriber)
    requires
        call_ensures(json_subscriber, (level,), json),
        call_ensures(default_subscriber, (level,), text),
    ensures
        json.max_level == level && text.max_level == level,
        json.format == EventFormat::Json && text.format == EventFormat::Full,
        !json.span_close_events && text.span_close_events,
{
}

/// The level is the one that is named, and `Info` where none is, whatever the format. There is a
/// warning exactly where no level is named, whatever the format.
pub proof fn the_format_has_no_say_in_the_level(named: Option<Level>, json: bool, other: bool)
    ensures
        ({
            let setup = log_setup_for(named, json);
            &&& named is Some ==> setup.subscriber.max_level == named->0
            &&& named is None ==> setup.subscriber.max_level == Level::Info
            &&& named is Some <==> setup.warning is None
            &&& setup.subscriber.max_level == log_setup_for(named, other).subscriber.max_level
            &&& setup.warning == log_setup_for(named, other).warning
        }),
{
}

/// The level has no influence on the format: JSON where it is asked for, and else plain text,
/// which alone shows that a span closes.
pub proof fn the_level_has_no_say_in_the_format(
    named: Option<Level>,
    other: Option<Level>,
    json: bool,
)
    ensures
        ({
            let subscriber = log_setup_for(named, json).subscriber;
            &&& json <==> subscriber.format == EventFormat::Json
            &&& json <==> !subscriber.span_close_events
            &&& subscriber.format == log_setup_for(other, json).subscriber.format
        }),
{
}

/// What the log is set up with for a text: the level that the text names in upper case, in either
/// format, or `Info` and a warning that lists what names a level.
pub proof fn a_log_is_set_up_for_its_text(log_level: &str, json: bool, setup: LogSetup)
    requires
        call_ensures(log_setup, (log_level, json), setup),
    ensures
        ({
            let named = level_named(uppercase(log_level@));
            &&& named is Some ==> setup.subscriber.max_level == named->0 && setup.warning is None
            &&& named is None ==> setup.subscriber.max_level == Level::Info && setup.warning is Some
                && setup.warning->0.message@
                == "error parsing level: expected one of \"error\", \"warn\", \"info\", \"debug\", \"trace\", or a number 1-5"@
            &&& setup.subscriber.format == EventFormat::Json <==> json
            &&& setup.subscriber.span_close_events <==> !json
        }),
{
}

/// The default counts only where the text names no level, and then it is the answer: with two
/// defaults the answers are the same, or each is its default.
pub proof fn the_default_is_for_unnamed_levels(
    log_level: &str,
    default: Level,
    answer: (Level, Option<LevelError>),
    other: Level,
    other_answer: (Level, Option<LevelError>),
)
    requires
        call_ensures(parse_log_level, (log_level, default), answer),
        call_ensures(parse_log_level, (log_level, other), other_answer),
    ensures
        ({
            let named = level_named(uppercase(log_level@));
            &&& named is Some ==> answer.0 == named->0 && answer.0 == other_answer.0 && answer.1 is
                None && other_answer.1 is None
            &&& named is None ==> answer.0 == default && other_answer.0 == other && answer.1 is Some
                && other_answer.1 is Some && answer.1->0.message@
                == "error parsing level: expected one of \"error\", \"warn\", \"info\", \"debug\", \"trace\", or a number 1-5"@
        }),
{
}

/// The same of a text that is taken as it stands.
pub proof fn an_upper_level_is_taken_as_it_stands(
    upper: &str,
    default: Level,
    answer: (Level, Option<LevelError>),
)
    requires
        call_ensures(parse_upper_level, (upper, default), answer),
    ensures
        level_named(upper@) is Some <==> answer.1 is None,
        level_named(upper@) is Some ==> answer.0 == level_named(upper@)->0,
        level_named(upper@) is None ==> answer.0 == default,
{
}

/// A word in any case and the number of its level name that level, and nothing else names it.
pub proof fn a_level_has_a_word_and_a_number(text: Seq<char>)
    ensures
        level_named(text) == Some(Level::Error) <==> writes_number(text, 1) || same_but_for_case(
            text,
            "error"@,
        ),
        level_named(text) == Some(Level::Warn) <==> writes_number(text, 2) || same_but_for_case(
            text,
            "warn"@,
        ),
        level_named(text) == Some(Level::Info) <==> writes_number(text, 3) || same_but_for_case(
            text,
            "info"@,
        ),
        level_named(text) == Some(Level::Debug) <==> writes_number(text, 4) || same_but_for_case(
            text,
            "debug"@,
        ),
        level_named(text) == Some(Level::Trace) <==> writes_number(text, 5) || same_but_for_case(
            text,
            "trace"@,
        ),
{
    reveal_strlit("error");
    reveal_strlit("warn");
    reveal_strlit("info");
    reveal_strlit("debug");
    reveal_strlit("trace");
    if text.len() > 0 {
        assert(ascii_upper(text[0]) == ascii_upper(text[0]));
        assert(unsigned(text) == text ==> unsigned(text)[0] == text[0]);
    }
}

} // verus!
