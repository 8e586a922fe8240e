//! Runs a command and reports its completion as a desktop notification whose
//! contents come from built-in defaults, a named profile and command-line
//! overrides.

pub mod args;
pub mod config;
pub mod diagnostics;
pub mod laws;
pub mod report;
pub mod run;
pub mod settings;
pub mod text;

pub use args::{Args, ArgsError, ArgsErrorView, ArgsView, OptionFlag};
pub use config::{Config, ConfigView, TomlConfig, TomlProfile, TomlTimeout};
pub use diagnostics::{Diagnostic, DiagnosticView};
pub use report::{compose, compose_with, integer_string, Notification, ProcessResult};
pub use run::{Action, Event, Run, Stage};
pub use settings::{Timeout, Urgency};
