//! The outcome of the command and the notification that reports it.

use vstd::prelude::*;
use vstd::string::StringExecFns;

use crate::config::Config;
use crate::diagnostics::{diagnostic_views, note, Diagnostic, DiagnosticView};
use crate::settings::{Timeout, Urgency};

verus! {

/// How the command ended.
#[derive(Clone, Copy, Debug, PartialEq, Eq, Structural)]
pub struct ProcessResult {
    /// The wall-clock run time, in whole seconds.
    pub elapsed_secs: u64,
    /// The command's exit code; none when a signal ended it.
    pub exit_code: Option<i32>,
}

/// The run's own exit status when a signal ended the command.
pub const SIGNALED_EXIT_STATUS: i32 = 1;

/// The run's exit status: the command's exit code, or
/// `SIGNALED_EXIT_STATUS` when a signal ended it.
pub open spec fn exit_status_of(exit_code: Option<i32>) -> i32 {
    match exit_code {
        Some(c) => c,
        None => SIGNALED_EXIT_STATUS,
    }
}

/// What the end of the command reports: a signal, if one ended it.
pub open spec fn outcome_notes(exit_code: Option<i32>) -> Seq<DiagnosticView> {
    match exit_code {
        Some(_) => Seq::empty(),
        None => seq![DiagnosticView::KilledBySignal],
    }
}

impl ProcessResult {
    /// The run's exit status.
    pub fn exit_status(&self) -> (r: i32)
        ensures
            r == exit_status_of(self.exit_code),
    {
        match self.exit_code {
            Some(c) => c,
            None => SIGNALED_EXIT_STATUS,
        }
    }

    /// Notes in `diagnostics` that a signal ended the command, if one did.
    pub fn note_outcome(&self, diagnostics: &mut Vec<Diagnostic>)
        ensures
            diagnostic_views(final(diagnostics)@) == diagnostic_views(old(diagnostics)@)
                + outcome_notes(self.exit_code),
    {
        if self.exit_code.is_none() {
            note(diagnostics, Diagnostic::KilledBySignal);
        } else {
            assert(diagnostic_views(diagnostics@) =~= diagnostic_views(diagnostics@) + Seq::empty());
        }
    }
}

/// The notification handed to the notification service.
#[derive(Debug)]
pub struct Notification {
    pub summary: String,
    pub body: String,
    pub timeout: Timeout,
    pub urgency: Urgency,
    /// The name of the application that sends it.
    pub appname: String,
}

/// The name under which notifications are sent.
pub open spec fn app_name() -> Seq<char> {
    "notify-complete"@
}

pub open spec fn digit_char(d: nat) -> char {
    seq!['0', '1', '2', '3', '4', '5', '6', '7', '8', '9'][d as int]
}

/// The decimal digits of a natural number.
pub open spec fn natural_text(n: nat) -> Seq<char>
    decreases n,
{
    if n < 10 {
        seq![digit_char(n)]
    } else {
        natural_text(n / 10).push(digit_char(n % 10))
    }
}

/// The decimal text of an integer, with a leading `-` when it is negative.
pub open spec fn integer_text(n: int) -> Seq<char> {
    if n < 0 {
        seq!['-'] + natural_text((-n) as nat)
    } else {
        natural_text(n as nat)
    }
}

/// The text of one decimal digit.
fn digit_str(d: u64) -> (r: &'static str)
    requires
        d < 10,
    ensures
        r@ == seq![digit_char(d as nat)],
{
    proof {
        reveal_strlit("0");
        reveal_strlit("1");
        reveal_strlit("2");
        reveal_strlit("3");
        reveal_strlit("4");
        reveal_strlit("5");
        reveal_strlit("6");
        reveal_strlit("7");
        reveal_strlit("8");
        reveal_strlit("9");
    }
    let r = if d == 0 {
        "0"
    } else if d == 1 {
        "1"
    } else if d == 2 {
        "2"
    } else if d == 3 {
        "3"
    } else if d == 4 {
        "4"
    } else if d == 5 {
        "5"
    } else if d == 6 {
        "6"
    } else if d == 7 {
        "7"
    } else if d == 8 {
        "8"
    } else {
        "9"
    };
    assert(r@ =~= seq![digit_char(d as nat)]);
    r
}

/// The decimal digits of a natural number.
fn natural_string(n: u64) -> (r: String)
    ensures
        r@ == natural_text(n as nat),
    decreases n,
{
    if n < 10 {
        digit_str(n).to_owned()
    } else {
        let mut s = natural_string(n / 10);
        s.append(digit_str(n % 10));
        assert(s@ =~= natural_text(n as nat));
        s
    }
}

/// The decimal text of an exit code.
pub fn integer_string(n: i32) -> (r: String)
    ensures
        r@ == integer_text(n as int),
{
    if n < 0 {
        let magnitude = (0i64 - n as i64) as u64;
        let mut s = "-".to_owned();
        proof {
            reveal_strlit("-");
        }
        s.append(natural_string(magnitude).as_str());
        assert(s@ =~= integer_text(n as int));
        s
    } else {
        natural_string(n as u64)
    }
}

/// A run time in whole seconds as readable text, such as `2m 5s`.
pub uninterp spec fn duration_text(secs: u64) -> Seq<char>;

/// Relies on `humantime::format_duration`: the text it displays for a whole
/// number of seconds, which is `0s` for zero.
#[verifier::external_body]
fn format_elapsed(secs: u64) -> (r: String)
    ensures
        r@ == duration_text(secs),
        secs == 0 ==> r@ == "0s"@,
{
    humantime::format_duration(std::time::Duration::from_secs(secs)).to_string()
}

/// The exit code that the notification's body shows, if any.
pub open spec fn shown_exit_code(exit_code: Option<i32>, show_exit_code: bool) -> Option<i32> {
    if show_exit_code {
        exit_code
    } else {
        None
    }
}

/// The notification's body: the message, then a line with the run time, then,
/// when an exit code is shown, a line with it.
pub open spec fn body_text(message: Seq<char>, elapsed: Seq<char>, exit_code: Option<i32>) -> Seq<
    char,
> {
    message + "\n"@ + "Completed in "@ + elapsed + match exit_code {
        Some(c) => "\nExit code: "@ + integer_text(c as int),
        None => Seq::empty(),
    }
}

/// Builds the notification for a finished run whose run time reads
/// `elapsed`; the body shows the exit code when `show_exit_code` holds and
/// the command exited normally.
pub fn compose_with(config: &Config, result: &ProcessResult, elapsed: &str, show_exit_code: bool) -> (r:
    Notification)
    ensures
        r.summary@ == config.title@,
        r.body@ == body_text(
            config.message@,
            elapsed@,
            shown_exit_code(result.exit_code, show_exit_code),
        ),
        r.timeout == config.timeout,
        r.urgency == config.urgency,
        r.appname@ == app_name(),
{
    let mut body = config.message.clone();
    body.append("\n");
    body.append("Completed in ");
    body.append(elapsed);
    if show_exit_code {
        if let Some(code) = result.exit_code {
            body.append("\nExit code: ");
            body.append(integer_string(code).as_str());
        }
    }
    let r = Notification {
        summary: config.title.clone(),
        body,
        timeout: config.timeout,
        urgency: config.urgency,
        appname: "notify-complete".to_owned(),
    };
    assert(r.body@ =~= body_text(
        config.message@,
        elapsed@,
        shown_exit_code(result.exit_code, show_exit_code),
    ));
    r
}

/// Builds the notification for a finished run: the configuration's title,
/// timeout and urgency, and a body with the message and the run time.
pub fn compose(config: &Config, result: &ProcessResult, show_exit_code: bool) -> (r: Notification)
    ensures
        r.summary@ == config.title@,
        r.body@ == body_text(
            config.message@,
            duration_text(result.elapsed_secs),
            shown_exit_code(result.exit_code, show_exit_code),
        ),
        r.timeout == config.timeout,
        r.urgency == config.urgency,
        r.appname@ == app_name(),
{
    let elapsed = format_elapsed(result.elapsed_secs);
    compose_with(config, result, elapsed.as_str(), show_exit_code)
}

} // verus!
