//! Properties that relate the functions of the library, proved over their
//! models.

use vstd::prelude::*;

use crate::args::ArgsView;
use crate::config::{
    default_config_view, default_profile_name, last_named, lookup_config,
    profile_config, resolve_config, urgency_text_notes, ConfigView, TomlProfileView,
};
use crate::diagnostics::DiagnosticView;
use crate::run::{next_stage, stage_rank, Event, Stage};
use crate::settings::{
    timeout_from_number, timeout_from_text, timeout_text_accepted, urgency_from_text, Timeout,
    Urgency,
};

verus! {

/// A name that no profile of the list carries selects none.
pub proof fn lemma_absent_name_not_found(ps: Seq<TomlProfileView>, name: Seq<char>)
    requires
        forall|i: int| 0 <= i < ps.len() ==> (#[trigger] ps[i]).name != name,
    ensures
        last_named(ps, name) is None,
    decreases ps.len(),
{
    if ps.len() > 0 {
        assert(ps.last() == ps[ps.len() - 1]);
        let rest = ps.drop_last();
        assert forall|i: int| 0 <= i < rest.len() implies (#[trigger] rest[i]).name != name by {
            assert(rest[i] == ps[i]);
        }
        lemma_absent_name_not_found(rest, name);
    }
}

/// A profile name that no declared profile carries selects the same
/// configuration as `default`; when no `default` profile is declared either,
/// that is the built-in configuration.
pub proof fn unknown_profile_falls_back(ps: Seq<TomlProfileView>, name: Seq<char>)
    requires
        forall|i: int| 0 <= i < ps.len() ==> (#[trigger] ps[i]).name != name,
    ensures
        lookup_config(ps, name) == lookup_config(ps, default_profile_name()),
        (forall|i: int| 0 <= i < ps.len() ==> (#[trigger] ps[i]).name != default_profile_name())
            ==> lookup_config(ps, name) == default_config_view(),
{
    lemma_absent_name_not_found(ps, name);
    if forall|i: int| 0 <= i < ps.len() ==> (#[trigger] ps[i]).name != default_profile_name() {
        lemma_absent_name_not_found(ps, default_profile_name());
    }
}

/// Each display setting that the command line leaves unset keeps the
/// profile's value, and each one it sets takes the override (a timeout or an
/// urgency read by the rules of its kind); the icon always stays the
/// profile's and the command is always the command line's.
pub proof fn overrides_replace_only_what_they_set(profile: ConfigView, o: ArgsView)
    ensures
        ({
            let r = resolve_config(profile, o);
            &&& o.title is None ==> r.title == profile.title
            &&& o.title matches Some(t) ==> r.title == t
            &&& o.message is None ==> r.message == profile.message
            &&& o.message matches Some(m) ==> r.message == m
            &&& o.timeout is None ==> r.timeout == profile.timeout
            &&& o.timeout matches Some(t) ==> r.timeout == timeout_from_text(t)
            &&& o.urgency is None ==> r.urgency == profile.urgency
            &&& o.urgency matches Some(u) ==> r.urgency == urgency_from_text(u)
            &&& r.icon == profile.icon
            &&& r.command == o.command
        }),
{
}

/// Reading a timeout never fails: a text that is not understood, and a number
/// below -1 or beyond the largest count of milliseconds, give the default
/// timeout.
pub proof fn timeout_reading_is_total(s: Seq<char>, n: int)
    ensures
        !timeout_text_accepted(s) ==> timeout_from_text(s) == Timeout::Default,
        (n < -1 || n > u32::MAX) ==> timeout_from_number(n) == Timeout::Default,
{
}

/// A text that names no urgency gives normal urgency and is reported.
pub proof fn unknown_urgency_is_normal(s: Seq<char>)
    requires
        s != "low"@,
        s != "normal"@,
        s != "critical"@,
    ensures
        urgency_from_text(s) == Urgency::Normal,
        urgency_text_notes(s) == seq![DiagnosticView::InvalidUrgency(s)],
{
}

/// Resolving without overrides gives back the profile's configuration with
/// the command line's command; for a profile that declares its title,
/// message and icon, those are the declared values.
pub proof fn no_overrides_keep_profile(p: TomlProfileView, o: ArgsView)
    requires
        o.title is None,
        o.message is None,
        o.timeout is None,
        o.urgency is None,
    ensures
        resolve_config(profile_config(p), o) == (ConfigView { command: o.command, ..profile_config(p) }),
        p.title matches Some(t) ==> resolve_config(profile_config(p), o).title == t,
        p.message matches Some(m) ==> resolve_config(profile_config(p), o).message == m,
        p.icon matches Some(i) ==> resolve_config(profile_config(p), o).icon == i,
{
}

/// A run only moves forward: an event either leaves the stage as it is or
/// leads to a later one, so no stage is entered twice; and a run aborts only
/// from the stage where its command is to be spawned.
pub proof fn run_moves_forward(s: Stage, e: Event)
    ensures
        next_stage(s, e) == s || stage_rank(next_stage(s, e)) > stage_rank(s),
        next_stage(s, e) == Stage::Aborted && s != Stage::Aborted ==> s == Stage::ConfigResolved,
        s == Stage::Done || s == Stage::Aborted ==> next_stage(s, e) == s,
{
}

} // verus!
