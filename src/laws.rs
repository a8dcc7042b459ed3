use vstd::prelude::*;

use crate::filter::{admits, emitted, prefix_of};
use crate::level::{severity, threshold_of_flags, Level};

verus! {

/// A threshold splits the levels in two: every level below it is
/// suppressed, and every message level at or above it is admitted.
pub proof fn lemma_threshold_splits_levels(below: Level, threshold: Level, at: Level)
    requires
        severity(below) < severity(threshold),
    ensures
        !admits(threshold, below),
        severity(threshold) <= severity(at) && at != Level::Disabled ==> admits(threshold, at),
{
}

/// A `Disabled` threshold suppresses every call, whatever its level.
pub proof fn lemma_disabled_suppresses_all(at: Level, file: Seq<char>, line: nat, content: Seq<char>)
    ensures
        !admits(Level::Disabled, at),
        emitted(Level::Disabled, at, file, line, content) is None,
{
}

/// With no level flag set, the threshold is `Disabled`, and it lets every
/// call through exactly when `Disabled` does, that is never.
pub proof fn lemma_unconfigured_is_disabled(at: Level)
    ensures
        threshold_of_flags(false, false, false, false) == Level::Disabled,
        admits(threshold_of_flags(false, false, false, false), at) == admits(Level::Disabled, at),
        !admits(threshold_of_flags(false, false, false, false), at),
{
}

/// An emitted message is one prefix, made of the location tag and the
/// label and closed by `] `, followed by the content unchanged.
pub proof fn lemma_message_shape(
    threshold: Level,
    at: Level,
    file: Seq<char>,
    line: nat,
    content: Seq<char>,
)
    requires
        admits(threshold, at),
    ensures
        emitted(threshold, at, file, line, content) is Some,
        ({
            let m = emitted(threshold, at, file, line, content)->0;
            let p = prefix_of(file, line, at);
            &&& m.len() == p.len() + content.len()
            &&& m.subrange(0, p.len() as int) == p
            &&& m.subrange(p.len() as int, m.len() as int) == content
            &&& p[0] == '['
            &&& p.subrange(p.len() - 2, p.len() as int) == seq![']', ' ']
        }),
{
    let m = emitted(threshold, at, file, line, content)->0;
    let p = prefix_of(file, line, at);
    assert(m.subrange(0, p.len() as int) =~= p);
    assert(m.subrange(p.len() as int, m.len() as int) =~= content);
    assert(p.subrange(p.len() - 2, p.len() as int) =~= seq![']', ' ']);
}

/// The filter keeps no state: the same threshold and the same call always
/// give the same decision and the same message.
pub proof fn lemma_filter_deterministic(
    threshold1: Level,
    threshold2: Level,
    at1: Level,
    at2: Level,
    file: Seq<char>,
    line: nat,
    content: Seq<char>,
)
    requires
        threshold1 == threshold2,
        at1 == at2,
    ensures
        admits(threshold1, at1) == admits(threshold2, at2),
        emitted(threshold1, at1, file, line, content) == emitted(threshold2, at2, file, line, content),
{
}

} // verus!
