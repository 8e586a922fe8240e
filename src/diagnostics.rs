//! Warnings that the library reports instead of failing: each recoverable
//! problem substitutes a documented default and leaves one of these behind.

use vstd::prelude::*;

verus! {

/// A recoverable problem met while resolving the configuration or reporting
/// the run.
#[derive(Debug)]
pub enum Diagnostic {
    /// A timeout text that is neither `default`, `never` nor a count of
    /// milliseconds; the default timeout is used instead.
    InvalidTimeout(String),
    /// A numeric timeout below -1 or above the largest count of milliseconds;
    /// the default timeout is used instead.
    TimeoutOutOfRange(i64),
    /// An urgency other than `low`, `normal` or `critical`; normal urgency is
    /// used instead.
    InvalidUrgency(String),
    /// A profile name that the configuration does not declare; the `default`
    /// profile is used instead.
    UnknownProfile(String),
    /// The command did not exit normally but was ended by a signal.
    KilledBySignal,
}

/// The mathematical model of a [`Diagnostic`].
pub enum DiagnosticView {
    InvalidTimeout(Seq<char>),
    TimeoutOutOfRange(i64),
    InvalidUrgency(Seq<char>),
    UnknownProfile(Seq<char>),
    KilledBySignal,
}

impl View for Diagnostic {
    type V = DiagnosticView;

    open spec fn view(&self) -> DiagnosticView {
        match self {
            Diagnostic::InvalidTimeout(s) => DiagnosticView::InvalidTimeout(s@),
            Diagnostic::TimeoutOutOfRange(n) => DiagnosticView::TimeoutOutOfRange(*n),
            Diagnostic::InvalidUrgency(s) => DiagnosticView::InvalidUrgency(s@),
            Diagnostic::UnknownProfile(s) => DiagnosticView::UnknownProfile(s@),
            Diagnostic::KilledBySignal => DiagnosticView::KilledBySignal,
        }
    }
}

/// The models of a list of diagnostics, in order.
pub open spec fn diagnostic_views(d: Seq<Diagnostic>) -> Seq<DiagnosticView> {
    d.map_values(|x: Diagnostic| x@)
}

/// Appends one diagnostic to a sink.
pub fn note(sink: &mut Vec<Diagnostic>, d: Diagnostic)
    ensures
        diagnostic_views(final(sink)@) == diagnostic_views(old(sink)@).push(d@),
{
    sink.push(d);
    assert(diagnostic_views(sink@) =~= diagnostic_views(old(sink)@).push(d@));
}

} // verus!
