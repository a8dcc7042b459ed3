use vstd::prelude::*;

use crate::decimal::{decimal, decimal_of};
use crate::level::{label_of, severity, Level};

verus! {

/// Whether a call at level `at` gets through when the threshold is
/// `threshold`: `at` must be a message level no less severe than the
/// threshold. `Disabled` is no message level, so nothing passes a
/// `Disabled` threshold.
pub open spec fn admits(threshold: Level, at: Level) -> bool {
    at != Level::Disabled && severity(threshold) <= severity(at)
}

/// The source-location tag and level label put before every emitted
/// message: `[<file>:<line> <LABEL>] `.
pub open spec fn prefix_of(file: Seq<char>, line: nat, at: Level) -> Seq<char> {
    seq!['['] + file + seq![':'] + decimal_of(line) + seq![' '] + label_of(at) + seq![']', ' ']
}

/// What the filter hands to the log for a call: nothing where the call is
/// suppressed, else the prefix followed by the formatted content.
pub open spec fn emitted(
    threshold: Level,
    at: Level,
    file: Seq<char>,
    line: nat,
    content: Seq<char>,
) -> Option<Seq<char>> {
    if admits(threshold, at) {
        Some(prefix_of(file, line, at) + content)
    } else {
        None
    }
}

/// Decides whether a call at level `at` is emitted under `threshold`.
pub fn enabled(threshold: Level, at: Level) -> (r: bool)
    ensures
        r == admits(threshold, at),
{
    at != Level::Disabled && !at.is_below(&threshold)
}

/// Builds the prefix `[<file>:<line> <LABEL>] ` of a message at level `at`.
pub(crate) fn prefix(file: &str, line: u32, at: Level) -> (r: String)
    requires
        at != Level::Disabled,
    ensures
        r@ == prefix_of(file@, line as nat, at),
{
    proof {
        reveal_strlit("[");
        reveal_strlit(":");
        reveal_strlit(" ");
        reveal_strlit("] ");
    }
    let label = match at.label() {
        Some(l) => l,
        None => "",
    };
    let mut s = String::from_str("[");
    s.append(file);
    s.append(":");
    let digits = decimal(line);
    s.append(digits.as_str());
    s.append(" ");
    s.append(label);
    s.append("] ");
    assert(s@ =~= prefix_of(file@, line as nat, at));
    s
}

/// Runs the filter for a call at level `at`, made at `file`:`line`, whose
/// formatted content is `content`. Returns the message to emit, or `None`
/// where the threshold suppresses the call.
pub fn record(threshold: Level, at: Level, file: &str, line: u32, content: &str) -> (r: Option<
    String,
>)
    ensures
        r is Some <==> admits(threshold, at),
        r is Some ==> emitted(threshold, at, file@, line as nat, content@) == Some(r->0@),
{
    if enabled(threshold, at) {
        let mut s = prefix(file, line, at);
        s.append(content);
        Some(s)
    } else {
        None
    }
}

/// The filter for a call at `Debug`.
pub fn debug(threshold: Level, file: &str, line: u32, content: &str) -> (r: Option<String>)
    ensures
        r is Some <==> admits(threshold, Level::Debug),
        r is Some ==> emitted(threshold, Level::Debug, file@, line as nat, content@) == Some(
            r->0@,
        ),
{
    record(threshold, Level::Debug, file, line, content)
}

/// The filter for a call at `Info`.
pub fn info(threshold: Level, file: &str, line: u32, content: &str) -> (r: Option<String>)
    ensures
        r is Some <==> admits(threshold, Level::Info),
        r is Some ==> emitted(threshold, Level::Info, file@, line as nat, content@) == Some(
            r->0@,
        ),
{
    record(threshold, Level::Info, file, line, content)
}

/// The filter for a call at `Warn`.
pub fn warn(threshold: Level, file: &str, line: u32, content: &str) -> (r: Option<String>)
    ensures
        r is Some <==> admits(threshold, Level::Warn),
        r is Some ==> emitted(threshold, Level::Warn, file@, line as nat, content@) == Some(
            r->0@,
        ),
{
    record(threshold, Level::Warn, file, line, content)
}

/// The filter for a call at `Error`.
pub fn error(threshold: Level, file: &str, line: u32, content: &str) -> (r: Option<String>)
    ensures
        r is Some <==> admits(threshold, Level::Error),
        r is Some ==> emitted(threshold, Level::Error, file@, line as nat, content@) == Some(
            r->0@,
        ),
{
    record(threshold, Level::Error, file, line, content)
}

} // verus!
