//! The course of one run, as a machine that the caller drives: it performs
//! each action the machine returns and hands back what came of it.
//!
//! The configuration is resolved first; then the command is spawned and
//! awaited; then the notification is sent; then the run exits with the
//! command's status. A command that cannot be spawned aborts the run before
//! any notification. No stage is entered twice.

use vstd::prelude::*;

use crate::config::{Config, ConfigView};
use crate::diagnostics::{diagnostic_views, Diagnostic, DiagnosticView};
use crate::report::{
    app_name, body_text, compose, duration_text, exit_status_of, outcome_notes, shown_exit_code,
    Notification, ProcessResult,
};
use crate::text::{copy_texts, texts};

verus! {

/// Where a run stands.
#[derive(Clone, Copy, Debug, PartialEq, Eq, Structural)]
pub enum Stage {
    /// The configuration is resolved; the command is to be spawned.
    ConfigResolved,
    /// The command runs.
    ProcessRunning,
    /// The command has ended; its notification is to be sent.
    ProcessFinished,
    /// The notification was handed to the service, delivered or not; the run
    /// ends with the command's status.
    Done,
    /// The command could not be spawned; the run ends without a
    /// notification.
    Aborted,
}

/// How far a stage lies along the run.
pub open spec fn stage_rank(s: Stage) -> nat {
    match s {
        Stage::ConfigResolved => 0,
        Stage::ProcessRunning => 1,
        Stage::ProcessFinished => 2,
        Stage::Done => 3,
        Stage::Aborted => 3,
    }
}

/// What came of the last action.
#[derive(Debug)]
pub enum Event {
    /// The command was spawned.
    Spawned,
    /// The command could not be spawned.
    SpawnFailed,
    /// The command ended.
    ProcessEnded(ProcessResult),
    /// The notification service took the notification.
    NotificationDelivered,
    /// The notification service refused the notification.
    NotificationFailed,
}

/// What the caller is to do next.
#[derive(Debug)]
pub enum Action {
    /// Spawn this command with its arguments.
    Spawn(Vec<String>),
    /// Wait for the command to end.
    Wait,
    /// Send this notification.
    Notify(Notification),
    /// End the run with this exit status.
    Exit(i32),
    /// The event does not belong to the current stage: nothing to do.
    Ignore,
}

/// The run's exit status when the command cannot be spawned.
pub const SPAWN_FAILURE_STATUS: i32 = 1;

/// The stage that an event leads to.
pub open spec fn next_stage(s: Stage, e: Event) -> Stage {
    match (s, e) {
        (Stage::ConfigResolved, Event::Spawned) => Stage::ProcessRunning,
        (Stage::ConfigResolved, Event::SpawnFailed) => Stage::Aborted,
        (Stage::ProcessRunning, Event::ProcessEnded(_)) => Stage::ProcessFinished,
        (Stage::ProcessFinished, Event::NotificationDelivered) => Stage::Done,
        (Stage::ProcessFinished, Event::NotificationFailed) => Stage::Done,
        _ => s,
    }
}

/// Whether an event belongs to a stage.
pub open spec fn accepts(s: Stage, e: Event) -> bool {
    next_stage(s, e) != s
}

/// One run of a command.
pub struct Run {
    stage: Stage,
    config: Config,
    show_exit_code: bool,
    result: Option<ProcessResult>,
}

impl Run {
    /// Once the command has ended, its outcome is kept.
    #[verifier::type_invariant]
    spec fn outcome_kept(&self) -> bool {
        (self.stage == Stage::ProcessFinished || self.stage == Stage::Done) ==> self.result is Some
    }

    pub closed spec fn stage_spec(&self) -> Stage {
        self.stage
    }

    pub closed spec fn config_spec(&self) -> ConfigView {
        self.config@
    }

    pub closed spec fn show_exit_code_spec(&self) -> bool {
        self.show_exit_code
    }

    /// The command's outcome, once it has ended.
    pub closed spec fn result_spec(&self) -> Option<ProcessResult> {
        self.result
    }

    /// A run whose configuration is resolved; its first action is to spawn
    /// the configured command.
    pub fn new(config: Config, show_exit_code: bool) -> (r: (Run, Action))
        ensures
            r.0.stage_spec() == Stage::ConfigResolved,
            r.0.config_spec() == config@,
            r.0.show_exit_code_spec() == show_exit_code,
            r.0.result_spec() is None,
            r.1 matches Action::Spawn(cmd) && texts(cmd@) == config@.command,
    {
        let command = copy_texts(&config.command);
        (Run { stage: Stage::ConfigResolved, config, show_exit_code, result: None }, Action::Spawn(
            command,
        ))
    }

    /// Where the run stands.
    pub fn stage(&self) -> (r: Stage)
        ensures
            r == self.stage_spec(),
    {
        self.stage
    }

    /// Advances the run by what came of the last action, noting in
    /// `diagnostics` a command ended by a signal; returns the next action.
    pub fn step(&mut self, event: Event, diagnostics: &mut Vec<Diagnostic>) -> (r: Action)
        ensures
            final(self).stage_spec() == next_stage(old(self).stage_spec(), event),
            final(self).config_spec() == old(self).config_spec(),
            final(self).show_exit_code_spec() == old(self).show_exit_code_spec(),
            !accepts(old(self).stage_spec(), event) ==> r is Ignore,
            !(old(self).stage_spec() == Stage::ProcessRunning && event is ProcessEnded) ==> {
                &&& final(self).result_spec() == old(self).result_spec()
                &&& final(diagnostics)@ == old(diagnostics)@
            },
            accepts(old(self).stage_spec(), event) ==> stage_rank(final(self).stage_spec())
                > stage_rank(old(self).stage_spec()),
            old(self).stage_spec() == Stage::ConfigResolved && event is Spawned ==> r is Wait,
            old(self).stage_spec() == Stage::ConfigResolved && event is SpawnFailed ==> r
                == Action::Exit(SPAWN_FAILURE_STATUS),
            old(self).stage_spec() == Stage::ProcessRunning && event is ProcessEnded ==> {
                &&& final(self).result_spec() == Some(event->ProcessEnded_0)
                &&& r matches Action::Notify(n) && n.summary@ == old(self).config_spec().title
                    && n.body@ == body_text(
                    old(self).config_spec().message,
                    duration_text(event->ProcessEnded_0.elapsed_secs),
                    shown_exit_code(
                        event->ProcessEnded_0.exit_code,
                        old(self).show_exit_code_spec(),
                    ),
                ) && n.timeout == old(self).config_spec().timeout && n.urgency == old(
                    self,
                ).config_spec().urgency && n.appname@ == app_name()
                &&& diagnostic_views(final(diagnostics)@) == diagnostic_views(old(diagnostics)@)
                    + outcome_notes(event->ProcessEnded_0.exit_code)
            },
            old(self).stage_spec() == Stage::ProcessFinished && accepts(
                old(self).stage_spec(),
                event,
            ) ==> old(self).result_spec() is Some && r == Action::Exit(
                exit_status_of(old(self).result_spec()->0.exit_code),
            ),
    {
        proof {
            use_type_invariant(&*self);
        }
        match (self.stage, event) {
            (Stage::ConfigResolved, Event::Spawned) => {
                self.stage = Stage::ProcessRunning;
                Action::Wait
            },
            (Stage::ConfigResolved, Event::SpawnFailed) => {
                self.stage = Stage::Aborted;
                Action::Exit(SPAWN_FAILURE_STATUS)
            },
            (Stage::ProcessRunning, Event::ProcessEnded(result)) => {
                result.note_outcome(diagnostics);
                let n = compose(&self.config, &result, self.show_exit_code);
                self.result = Some(result);
                self.stage = Stage::ProcessFinished;
                Action::Notify(n)
            },
            (Stage::ProcessFinished, Event::NotificationDelivered) | (
                Stage::ProcessFinished,
                Event::NotificationFailed,
            ) => {
                self.stage = Stage::Done;
                match self.result {
                    Some(result) => Action::Exit(result.exit_status()),
                    None => {
                        assert(false);
                        Action::Ignore
                    },
                }
            },
            _ => Action::Ignore,
        }
    }
}

} // verus!
