//! Loading settings from a configuration source whose whole content is one
//! base-10 integer, with typed errors for each stage that can fail and a
//! default for a source that cannot be opened.
use vstd::prelude::*;

use crate::decimal::{
    decimal_value, digits_part, is_decimal, is_digit, message_of, parse_i32, parse_i32_spec,
    IntParseError,
};
use crate::whitespace::{is_white_space, trim, trim_end_spec, trim_spec, trim_start_spec};

verus! {

/// The value used when the configuration source cannot be opened.
pub const DEFAULT_N: i32 = 5;

/// Settings read from the configuration source.
#[derive(Debug, Clone, Copy, PartialEq, Eq, Structural)]
pub struct Setting {
    pub n: i32,
}

/// The stage at which loading failed.
#[derive(Debug, Clone, Copy, PartialEq, Eq, Structural)]
pub enum FailureKind {
    /// The source was opened but could not be read.
    Io,
    /// The content was read but is not an integer.
    Parse,
}

/// Why settings could not be loaded: the stage that failed, and a
/// human-readable message.
#[derive(Debug)]
pub struct MyError {
    pub kind: FailureKind,
    pub msg: String,
}

impl View for MyError {
    type V = (FailureKind, Seq<char>);

    open spec fn view(&self) -> (FailureKind, Seq<char>) {
        (self.kind, self.msg@)
    }
}

impl MyError {
    /// The error for a source that was opened but could not be read; `msg`
    /// describes the I/O failure.
    pub fn io(msg: String) -> (e: MyError)
        ensures
            e@ == (FailureKind::Io, msg@),
    {
        MyError { kind: FailureKind::Io, msg }
    }

    /// The error for content that is not an `i32` in base 10.
    pub fn parse(f: IntParseError) -> (e: MyError)
        ensures
            e@ == (FailureKind::Parse, message_of(f)),
    {
        MyError { kind: FailureKind::Parse, msg: f.message() }
    }
}

/// What was found at the configuration source.
pub enum SourceContent {
    /// The source could not be opened.
    Unopened,
    /// The source was opened, but reading it failed with this message.
    ReadFailed(String),
    /// The whole text that was read.
    Text(String),
}

/// The abstract state of a configuration source.
pub enum SourceState {
    Unopened,
    ReadFailed(Seq<char>),
    Text(Seq<char>),
}

impl View for SourceContent {
    type V = SourceState;

    open spec fn view(&self) -> SourceState {
        match self {
            SourceContent::Unopened => SourceState::Unopened,
            SourceContent::ReadFailed(m) => SourceState::ReadFailed(m@),
            SourceContent::Text(t) => SourceState::Text(t@),
        }
    }
}

/// A load result with its error seen through the error's view.
pub open spec fn outcome(r: Result<Setting, MyError>) -> Result<Setting, (FailureKind, Seq<char>)> {
    match r {
        Ok(s) => Ok(s),
        Err(e) => Err(e@),
    }
}

/// The settings that a text with no surrounding whitespace denotes.
pub open spec fn trimmed_setting_spec(t: Seq<char>) -> Result<Setting, (FailureKind, Seq<char>)> {
    match parse_i32_spec(t) {
        Ok(n) => Ok(Setting { n }),
        Err(f) => Err((FailureKind::Parse, message_of(f))),
    }
}

/// The settings that the content of a source denotes.
pub open spec fn text_setting_spec(t: Seq<char>) -> Result<Setting, (FailureKind, Seq<char>)> {
    trimmed_setting_spec(trim_spec(t))
}

/// What loading gives for each state of the source.
pub open spec fn load_spec(s: SourceState) -> Result<Setting, (FailureKind, Seq<char>)> {
    match s {
        SourceState::Unopened => Ok(Setting { n: DEFAULT_N }),
        SourceState::ReadFailed(m) => Err((FailureKind::Io, m)),
        SourceState::Text(t) => text_setting_spec(t),
    }
}

/// Reads settings from a text that has already been trimmed.
pub fn setting_from_trimmed(t: &str) -> (r: Result<Setting, MyError>)
    ensures
        outcome(r) == trimmed_setting_spec(t@),
{
    match parse_i32(t) {
        Ok(n) => Ok(Setting { n }),
        Err(f) => Err(MyError::parse(f)),
    }
}

/// Reads settings from the content of a source, ignoring whitespace around it.
pub fn setting_from_text(content: &str) -> (r: Result<Setting, MyError>)
    ensures
        outcome(r) == text_setting_spec(content@),
{
    setting_from_trimmed(trim(content))
}

/// Turns what was found at the configuration source into settings: the
/// default when it could not be opened, an I/O error when it could not be
/// read, and otherwise the integer that its trimmed content denotes, or a
/// parse error.
pub fn get_conf_val(source: SourceContent) -> (r: Result<Setting, MyError>)
    ensures
        outcome(r) == load_spec(source@),
{
    match source {
        SourceContent::Unopened => Ok(Setting { n: DEFAULT_N }),
        SourceContent::ReadFailed(msg) => Err(MyError::io(msg)),
        SourceContent::Text(t) => setting_from_text(t.as_str()),
    }
}

/// Content that is exactly a base-10 integer within the range of `i32` loads
/// as settings holding that integer.
pub proof fn lemma_integer_content_loads(t: Seq<char>)
    requires
        is_decimal(t),
        i32::MIN <= decimal_value(t) <= i32::MAX,
    ensures
        load_spec(SourceState::Text(t)) == Ok::<Setting, (FailureKind, Seq<char>)>(
            Setting { n: decimal_value(t) as i32 },
        ),
{
    let d = digits_part(t);
    assert(is_digit(d[0]));
    assert(is_digit(d[d.len() - 1]));
    assert(d[d.len() - 1] == t.last());
    assert(!is_white_space(t[0]));
    assert(!is_white_space(t.last()));
    assert(trim_start_spec(t) == t);
    assert(trim_end_spec(t) == t);
}

/// A source that cannot be opened loads as the default settings, never as an
/// error.
pub proof fn lemma_unopened_source_defaults()
    ensures
        load_spec(SourceState::Unopened) == Ok::<Setting, (FailureKind, Seq<char>)>(
            Setting { n: DEFAULT_N },
        ),
        DEFAULT_N == 5,
{
}

/// Content that, once trimmed, is not a sign followed by digits loads as a
/// parse error.
pub proof fn lemma_non_integer_content_fails_parse(t: Seq<char>)
    requires
        !is_decimal(trim_spec(t)),
    ensures
        load_spec(SourceState::Text(t)) is Err,
        load_spec(SourceState::Text(t))->Err_0.0 == FailureKind::Parse,
{
}

/// A source that was opened but could not be read loads as an I/O error
/// carrying the read failure's message.
pub proof fn lemma_unreadable_source_fails_io(msg: Seq<char>)
    ensures
        load_spec(SourceState::ReadFailed(msg)) == Err::<Setting, (FailureKind, Seq<char>)>(
            (FailureKind::Io, msg),
        ),
{
}

/// Loading twice from a source that has not changed gives the same result
/// both times.
pub proof fn lemma_load_is_repeatable(first: SourceContent, second: SourceContent)
    requires
        first@ == second@,
    ensures
        load_spec(first@) == load_spec(second@),
{
}

} // verus!
