use vstd::prelude::*;

verus! {

/// Verbosity of a trace event, from the most verbose to the least.
#[derive(Clone, Copy, Debug, PartialEq, Eq, Structural)]
pub enum Severity {
    Trace,
    Debug,
    Info,
    Warn,
    Error,
}

/// Kind of a log message as the client sees it.
#[derive(Clone, Copy, Debug, PartialEq, Eq, Structural)]
pub enum MessageKind {
    Log,
    Info,
    Warning,
    Error,
}

/// Position of a severity in the order from most to least verbose.
pub open spec fn rank(s: Severity) -> nat {
    match s {
        Severity::Trace => 0,
        Severity::Debug => 1,
        Severity::Info => 2,
        Severity::Warn => 3,
        Severity::Error => 4,
    }
}

/// The message kind an event of severity `s` is delivered as, or `None` when
/// events of that severity are dropped.
pub open spec fn kind_of(s: Severity) -> Option<MessageKind> {
    match s {
        Severity::Trace => None,
        Severity::Debug => Some(MessageKind::Log),
        Severity::Info => Some(MessageKind::Info),
        Severity::Warn => Some(MessageKind::Warning),
        Severity::Error => Some(MessageKind::Error),
    }
}

/// Whether activity of severity `s` is of interest: it is at least as
/// significant as `Debug`.
pub open spec fn interested(s: Severity) -> bool {
    rank(s) >= rank(Severity::Debug)
}

/// Maps a trace severity to the kind of message it is delivered as.
pub fn message_kind(s: Severity) -> (r: Option<MessageKind>)
    ensures
        r == kind_of(s),
{
    match s {
        Severity::Trace => None,
        Severity::Debug => Some(MessageKind::Log),
        Severity::Info => Some(MessageKind::Info),
        Severity::Warn => Some(MessageKind::Warning),
        Severity::Error => Some(MessageKind::Error),
    }
}

/// Answers the interest query for activity of severity `s`.
pub fn is_enabled(s: Severity) -> (r: bool)
    ensures
        r == interested(s),
{
    match s {
        Severity::Trace => false,
        _ => true,
    }
}

/// The interest check and the emission check agree: a severity is of interest
/// exactly when its events are delivered, so `Trace` is never delivered.
pub proof fn lemma_interest_matches_delivery(s: Severity)
    ensures
        interested(s) <==> kind_of(s) is Some,
        s == Severity::Trace ==> kind_of(s) is None && !interested(s),
{
}

} // verus!
