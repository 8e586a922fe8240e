//! The effective configuration of a run: built-in defaults, overlaid by a
//! named profile of the configuration document, overlaid by the overrides of
//! the command line.

use vstd::prelude::*;

use crate::args::{parse_args, Args, ArgsView};
use crate::diagnostics::{diagnostic_views, note, Diagnostic, DiagnosticView};
use crate::settings::{
    parse_u32_text, timeout_from_number, timeout_from_text, timeout_number_accepted,
    timeout_text_accepted, urgency_from_text, urgency_text_accepted, Timeout, Urgency,
};
use crate::text::{copy_texts, optional_text, same_text, split_words, texts, whitespace_words};

verus! {

/// Everything a run needs: what the notification shows and which command
/// runs.
#[derive(Debug)]
pub struct Config {
    pub icon: String,
    pub message: String,
    pub timeout: Timeout,
    pub title: String,
    pub urgency: Urgency,
    pub command: Vec<String>,
}

/// The mathematical model of a [`Config`].
pub struct ConfigView {
    pub icon: Seq<char>,
    pub message: Seq<char>,
    pub timeout: Timeout,
    pub title: Seq<char>,
    pub urgency: Urgency,
    pub command: Seq<Seq<char>>,
}

impl View for Config {
    type V = ConfigView;

    open spec fn view(&self) -> ConfigView {
        ConfigView {
            icon: self.icon@,
            message: self.message@,
            timeout: self.timeout,
            title: self.title@,
            urgency: self.urgency,
            command: texts(self.command@),
        }
    }
}

/// The title used when nothing else names one.
pub open spec fn default_title_text() -> Seq<char> {
    "Command completed"@
}

/// The built-in configuration: the default title, an empty message and icon,
/// the default timeout, normal urgency and no command.
pub open spec fn default_config_view() -> ConfigView {
    ConfigView {
        icon: Seq::empty(),
        message: Seq::empty(),
        timeout: Timeout::Default,
        title: default_title_text(),
        urgency: Urgency::Normal,
        command: Seq::empty(),
    }
}

/// What parsing a timeout text reports.
pub open spec fn timeout_text_notes(s: Seq<char>) -> Seq<DiagnosticView> {
    if timeout_text_accepted(s) {
        Seq::empty()
    } else {
        seq![DiagnosticView::InvalidTimeout(s)]
    }
}

/// What reading a numeric timeout reports.
pub open spec fn timeout_number_notes(n: i64) -> Seq<DiagnosticView> {
    if timeout_number_accepted(n as int) {
        Seq::empty()
    } else {
        seq![DiagnosticView::TimeoutOutOfRange(n)]
    }
}

/// What parsing an urgency text reports.
pub open spec fn urgency_text_notes(s: Seq<char>) -> Seq<DiagnosticView> {
    if urgency_text_accepted(s) {
        Seq::empty()
    } else {
        seq![DiagnosticView::InvalidUrgency(s)]
    }
}

impl Config {
    /// The built-in configuration.
    pub fn default_config() -> (r: Config)
        ensures
            r@ == default_config_view(),
    {
        let r = Config {
            icon: Config::default_icon(),
            message: Config::default_message(),
            timeout: Config::default_timeout(),
            title: Config::default_title(),
            urgency: Config::default_urgency(),
            command: Config::default_command(),
        };
        assert(texts(r.command@) =~= Seq::empty());
        r
    }

    pub fn default_icon() -> (r: String)
        ensures
            r@ == Seq::<char>::empty(),
    {
        String::new()
    }

    pub fn default_message() -> (r: String)
        ensures
            r@ == Seq::<char>::empty(),
    {
        String::new()
    }

    pub fn default_title() -> (r: String)
        ensures
            r@ == default_title_text(),
    {
        "Command completed".to_owned()
    }

    pub fn default_timeout() -> (r: Timeout)
        ensures
            r == Timeout::Default,
    {
        Timeout::Default
    }

    pub fn default_urgency() -> (r: Urgency)
        ensures
            r == Urgency::Normal,
    {
        Urgency::Normal
    }

    pub fn default_command() -> (r: Vec<String>)
        ensures
            r@.len() == 0,
    {
        Vec::new()
    }

    /// Reads a timeout text, noting in `diagnostics` a text that is not
    /// understood.
    pub fn parse_timeout_noting(timeout: &str, diagnostics: &mut Vec<Diagnostic>) -> (r: Timeout)
        ensures
            r == timeout_from_text(timeout@),
            diagnostic_views(final(diagnostics)@) == diagnostic_views(old(diagnostics)@)
                + timeout_text_notes(timeout@),
    {
        if same_text(timeout, "default") {
            return Timeout::Default;
        }
        if same_text(timeout, "never") {
            return Timeout::Never;
        }
        match parse_u32_text(timeout) {
            Some(ms) => Timeout::Milliseconds(ms),
            None => {
                note(diagnostics, Diagnostic::InvalidTimeout(timeout.to_owned()));
                Timeout::Default
            },
        }
    }

    /// Reads a timeout text: `default`, `never` or a count of milliseconds;
    /// any other text gives the default timeout.
    pub fn parse_timeout(timeout: &str) -> (r: Timeout)
        ensures
            r == timeout_from_text(timeout@),
    {
        let mut ignored: Vec<Diagnostic> = Vec::new();
        Config::parse_timeout_noting(timeout, &mut ignored)
    }

    /// Reads a numeric timeout, noting in `diagnostics` a number out of range.
    pub fn parse_timeout_number_noting(ms: i64, diagnostics: &mut Vec<Diagnostic>) -> (r: Timeout)
        ensures
            r == timeout_from_number(ms as int),
            diagnostic_views(final(diagnostics)@) == diagnostic_views(old(diagnostics)@)
                + timeout_number_notes(ms),
    {
        if ms == -1 {
            Timeout::Default
        } else if ms == 0 {
            Timeout::Never
        } else if 0 < ms && ms <= 0xffff_ffff {
            Timeout::Milliseconds(ms as u32)
        } else {
            note(diagnostics, Diagnostic::TimeoutOutOfRange(ms));
            Timeout::Default
        }
    }

    /// Reads a numeric timeout: -1 is the default, 0 is never, a positive
    /// number counts milliseconds; any other number gives the default.
    pub fn parse_timeout_number(ms: i64) -> (r: Timeout)
        ensures
            r == timeout_from_number(ms as int),
    {
        let mut ignored: Vec<Diagnostic> = Vec::new();
        Config::parse_timeout_number_noting(ms, &mut ignored)
    }

    /// Reads an urgency text, noting in `diagnostics` a text that names none.
    pub fn parse_urgency_noting(urgency: &str, diagnostics: &mut Vec<Diagnostic>) -> (r: Urgency)
        ensures
            r == urgency_from_text(urgency@),
            diagnostic_views(final(diagnostics)@) == diagnostic_views(old(diagnostics)@)
                + urgency_text_notes(urgency@),
    {
        if same_text(urgency, "low") {
            Urgency::Low
        } else if same_text(urgency, "normal") {
            proof {
                reveal_strlit("normal");
                reveal_strlit("critical");
                assert("normal"@.len() != "critical"@.len());
            }
            Urgency::Normal
        } else if same_text(urgency, "critical") {
            Urgency::Critical
        } else {
            note(diagnostics, Diagnostic::InvalidUrgency(urgency.to_owned()));
            Urgency::Normal
        }
    }

    /// Reads an urgency text: `low`, `normal` or `critical`; any other text
    /// gives normal urgency.
    pub fn parse_urgency(urgency: &str) -> (r: Urgency)
        ensures
            r == urgency_from_text(urgency@),
    {
        let mut ignored: Vec<Diagnostic> = Vec::new();
        Config::parse_urgency_noting(urgency, &mut ignored)
    }
}


/// A timeout as the configuration document writes it: as text, or as a
/// number in the schema that counts milliseconds.
#[derive(Debug)]
pub enum TomlTimeout {
    Text(String),
    Number(i64),
}

/// The mathematical model of a [`TomlTimeout`].
pub enum TomlTimeoutView {
    Text(Seq<char>),
    Number(i64),
}

impl View for TomlTimeout {
    type V = TomlTimeoutView;

    open spec fn view(&self) -> TomlTimeoutView {
        match self {
            TomlTimeout::Text(s) => TomlTimeoutView::Text(s@),
            TomlTimeout::Number(n) => TomlTimeoutView::Number(*n),
        }
    }
}

/// One profile as the configuration document declares it; a field left out
/// takes its built-in default.
#[derive(Debug)]
pub struct TomlProfile {
    pub name: String,
    pub icon: Option<String>,
    pub message: Option<String>,
    pub timeout: Option<TomlTimeout>,
    pub title: Option<String>,
    pub urgency: Option<String>,
    pub command: Option<String>,
}

/// The mathematical model of a [`TomlProfile`].
pub struct TomlProfileView {
    pub name: Seq<char>,
    pub icon: Option<Seq<char>>,
    pub message: Option<Seq<char>>,
    pub timeout: Option<TomlTimeoutView>,
    pub title: Option<Seq<char>>,
    pub urgency: Option<Seq<char>>,
    pub command: Option<Seq<char>>,
}

impl View for TomlProfile {
    type V = TomlProfileView;

    open spec fn view(&self) -> TomlProfileView {
        TomlProfileView {
            name: self.name@,
            icon: optional_text(self.icon),
            message: optional_text(self.message),
            timeout: match self.timeout {
                Some(t) => Some(t@),
                None => None,
            },
            title: optional_text(self.title),
            urgency: optional_text(self.urgency),
            command: optional_text(self.command),
        }
    }
}

/// The configuration document: a list of profiles, possibly absent.
#[derive(Debug)]
pub struct TomlConfig {
    pub profile: Option<Vec<TomlProfile>>,
}

pub open spec fn profile_views(v: Seq<TomlProfile>) -> Seq<TomlProfileView> {
    v.map_values(|p: TomlProfile| p@)
}

impl View for TomlConfig {
    /// The profiles declared, in the order of the document.
    type V = Seq<TomlProfileView>;

    open spec fn view(&self) -> Seq<TomlProfileView> {
        match self.profile {
            Some(v) => profile_views(v@),
            None => Seq::empty(),
        }
    }
}

/// The profiles that an optional document declares.
pub open spec fn declared_profiles(toml: Option<TomlConfig>) -> Seq<TomlProfileView> {
    match toml {
        Some(t) => t@,
        None => Seq::empty(),
    }
}

pub open spec fn text_or(o: Option<Seq<char>>, fallback: Seq<char>) -> Seq<char> {
    match o {
        Some(s) => s,
        None => fallback,
    }
}

/// The timeout that a profile's timeout field gives.
pub open spec fn timeout_setting(t: Option<TomlTimeoutView>) -> Timeout {
    match t {
        Some(TomlTimeoutView::Text(s)) => timeout_from_text(s),
        Some(TomlTimeoutView::Number(n)) => timeout_from_number(n as int),
        None => Timeout::Default,
    }
}

/// What reading a profile's timeout field reports.
pub open spec fn timeout_setting_notes(t: Option<TomlTimeoutView>) -> Seq<DiagnosticView> {
    match t {
        Some(TomlTimeoutView::Text(s)) => timeout_text_notes(s),
        Some(TomlTimeoutView::Number(n)) => timeout_number_notes(n),
        None => Seq::empty(),
    }
}

/// The configuration that a declared profile gives: each field it declares,
/// read by the rules of its kind, and the built-in default for each other.
pub open spec fn profile_config(p: TomlProfileView) -> ConfigView {
    ConfigView {
        icon: text_or(p.icon, Seq::empty()),
        message: text_or(p.message, Seq::empty()),
        timeout: timeout_setting(p.timeout),
        title: text_or(p.title, default_title_text()),
        urgency: match p.urgency {
            Some(u) => urgency_from_text(u),
            None => Urgency::Normal,
        },
        command: match p.command {
            Some(c) => whitespace_words(c),
            None => Seq::empty(),
        },
    }
}

/// What reading a declared profile reports: its timeout, then its urgency.
pub open spec fn profile_notes(p: TomlProfileView) -> Seq<DiagnosticView> {
    timeout_setting_notes(p.timeout) + match p.urgency {
        Some(u) => urgency_text_notes(u),
        None => Seq::empty(),
    }
}

/// The position of the last profile named `name`: a later declaration
/// replaces an earlier one.
pub open spec fn last_named(ps: Seq<TomlProfileView>, name: Seq<char>) -> Option<int>
    decreases ps.len(),
{
    if ps.len() == 0 {
        None
    } else if ps.last().name == name {
        Some(ps.len() - 1)
    } else {
        last_named(ps.drop_last(), name)
    }
}

/// The profile that the name selects among those declared, if any.
pub open spec fn declared_profile(ps: Seq<TomlProfileView>, name: Seq<char>) -> Option<
    TomlProfileView,
> {
    match last_named(ps, name) {
        Some(i) => Some(ps[i]),
        None => None,
    }
}

pub open spec fn default_profile_name() -> Seq<char> {
    "default"@
}

/// The configuration that a profile name selects: the profile of that name;
/// else the declared `default` profile; else the built-in configuration.
pub open spec fn lookup_config(ps: Seq<TomlProfileView>, name: Seq<char>) -> ConfigView {
    match declared_profile(ps, name) {
        Some(p) => profile_config(p),
        None => match declared_profile(ps, default_profile_name()) {
            Some(d) => profile_config(d),
            None => default_config_view(),
        },
    }
}

/// What looking a profile name up reports: an unknown name other than
/// `default`, then what reading the profile used reports.
pub open spec fn lookup_notes(ps: Seq<TomlProfileView>, name: Seq<char>) -> Seq<DiagnosticView> {
    match declared_profile(ps, name) {
        Some(p) => profile_notes(p),
        None => (if name == default_profile_name() {
            Seq::empty()
        } else {
            seq![DiagnosticView::UnknownProfile(name)]
        }) + match declared_profile(ps, default_profile_name()) {
            Some(d) => profile_notes(d),
            None => Seq::empty(),
        },
    }
}

/// Finds the last profile of the list named `name`.
fn find_profile(profiles: &Vec<TomlProfile>, name: &str) -> (r: Option<usize>)
    ensures
        match r {
            Some(i) => i < profiles@.len() && last_named(profile_views(profiles@), name@) == Some(
                i as int,
            ),
            None => last_named(profile_views(profiles@), name@) is None,
        },
{
    let mut found: Option<usize> = None;
    let mut i: usize = 0;
    while i < profiles.len()
        invariant
            i <= profiles@.len(),
            match found {
                Some(k) => k < i && last_named(
                    profile_views(profiles@).subrange(0, i as int),
                    name@,
                ) == Some(k as int),
                None => last_named(profile_views(profiles@).subrange(0, i as int), name@) is None,
            },
        decreases profiles@.len() - i,
    {
        let ghost all = profile_views(profiles@);
        assert(all.subrange(0, i + 1).drop_last() =~= all.subrange(0, i as int));
        if same_text(profiles[i].name.as_str(), name) {
            found = Some(i);
        }
        i = i + 1;
    }
    assert(profile_views(profiles@).subrange(0, profiles@.len() as int) =~= profile_views(
        profiles@,
    ));
    found
}

impl Config {
    /// Splits a command line of a profile into its words.
    fn parse_command(command: &str) -> (r: Vec<String>)
        ensures
            texts(r@) == whitespace_words(command@),
    {
        split_words(command)
    }

    /// The configuration that a declared profile gives, noting in
    /// `diagnostics` what is not understood.
    pub fn from_toml_profile_noting(profile: &TomlProfile, diagnostics: &mut Vec<Diagnostic>) -> (r:
        Config)
        ensures
            r@ == profile_config(profile@),
            diagnostic_views(final(diagnostics)@) == diagnostic_views(old(diagnostics)@)
                + profile_notes(profile@),
    {
        let icon = match &profile.icon {
            Some(icon) => icon.clone(),
            None => Config::default_icon(),
        };
        let message = match &profile.message {
            Some(message) => message.clone(),
            None => Config::default_message(),
        };
        let ghost before = diagnostic_views(diagnostics@);
        let timeout = match &profile.timeout {
            Some(TomlTimeout::Text(t)) => Config::parse_timeout_noting(t.as_str(), diagnostics),
            Some(TomlTimeout::Number(n)) => Config::parse_timeout_number_noting(*n, diagnostics),
            None => Config::default_timeout(),
        };
        let ghost middle = diagnostic_views(diagnostics@);
        let title = match &profile.title {
            Some(title) => title.clone(),
            None => Config::default_title(),
        };
        let urgency = match &profile.urgency {
            Some(u) => Config::parse_urgency_noting(u.as_str(), diagnostics),
            None => Config::default_urgency(),
        };
        let command = match &profile.command {
            Some(c) => Config::parse_command(c.as_str()),
            None => Config::default_command(),
        };
        let r = Config { icon, message, timeout, title, urgency, command };
        assert(middle =~= before + timeout_setting_notes(profile@.timeout));
        assert(diagnostic_views(diagnostics@) =~= before + profile_notes(profile@));
        assert(texts(r.command@) =~= profile_config(profile@).command);
        r
    }

    /// The configuration that a declared profile gives.
    pub fn from_toml_profile(profile: &TomlProfile) -> (r: Config)
        ensures
            r@ == profile_config(profile@),
    {
        let mut ignored: Vec<Diagnostic> = Vec::new();
        Config::from_toml_profile_noting(profile, &mut ignored)
    }

    /// The configuration that a profile name selects in a document, noting in
    /// `diagnostics` an unknown name and what is not understood.
    pub fn from_toml_noting(profile: &str, toml: &TomlConfig, diagnostics: &mut Vec<Diagnostic>) -> (r:
        Config)
        ensures
            r@ == lookup_config(toml@, profile@),
            diagnostic_views(final(diagnostics)@) == diagnostic_views(old(diagnostics)@)
                + lookup_notes(toml@, profile@),
    {
        let ghost before = diagnostic_views(diagnostics@);
        match &toml.profile {
            None => {
                if !same_text(profile, "default") {
                    note(diagnostics, Diagnostic::UnknownProfile(profile.to_owned()));
                }
                assert(diagnostic_views(diagnostics@) =~= before + lookup_notes(toml@, profile@));
                Config::default_config()
            },
            Some(profiles) => {
                match find_profile(profiles, profile) {
                    Some(i) => Config::from_toml_profile_noting(&profiles[i], diagnostics),
                    None => {
                        if !same_text(profile, "default") {
                            note(diagnostics, Diagnostic::UnknownProfile(profile.to_owned()));
                        }
                        let ghost middle = diagnostic_views(diagnostics@);
                        let r = match find_profile(profiles, "default") {
                            Some(d) => Config::from_toml_profile_noting(&profiles[d], diagnostics),
                            None => Config::default_config(),
                        };
                        assert(diagnostic_views(diagnostics@) =~= before + lookup_notes(
                            toml@,
                            profile@,
                        ));
                        r
                    },
                }
            },
        }
    }

    /// The configuration that a profile name selects in a document: the last
    /// profile of that name; else the declared `default` profile; else the
    /// built-in configuration.
    pub fn from_toml(profile: &str, toml: &TomlConfig) -> (r: Config)
        ensures
            r@ == lookup_config(toml@, profile@),
    {
        let mut ignored: Vec<Diagnostic> = Vec::new();
        Config::from_toml_noting(profile, toml, &mut ignored)
    }
}


/// The effective configuration: each display setting that the command line
/// overrides takes the override, read by the rules of its kind; each other
/// keeps the profile's value; the command is the command line's.
pub open spec fn resolve_config(profile: ConfigView, o: ArgsView) -> ConfigView {
    ConfigView {
        icon: profile.icon,
        message: text_or(o.message, profile.message),
        timeout: match o.timeout {
            Some(t) => timeout_from_text(t),
            None => profile.timeout,
        },
        title: text_or(o.title, profile.title),
        urgency: match o.urgency {
            Some(u) => urgency_from_text(u),
            None => profile.urgency,
        },
        command: o.command,
    }
}

/// What reading the overrides reports: the timeout, then the urgency.
pub open spec fn resolve_notes(o: ArgsView) -> Seq<DiagnosticView> {
    (match o.timeout {
        Some(t) => timeout_text_notes(t),
        None => Seq::empty(),
    }) + (match o.urgency {
        Some(u) => urgency_text_notes(u),
        None => Seq::empty(),
    })
}

/// The effective configuration of a parsed command line against the declared
/// profiles.
pub open spec fn effective_config(o: ArgsView, ps: Seq<TomlProfileView>) -> ConfigView {
    resolve_config(lookup_config(ps, o.profile), o)
}

/// What resolving a parsed command line against the declared profiles
/// reports: the lookup, then the overrides.
pub open spec fn effective_notes(o: ArgsView, ps: Seq<TomlProfileView>) -> Seq<DiagnosticView> {
    lookup_notes(ps, o.profile) + resolve_notes(o)
}

impl Config {
    /// Overlays a profile's configuration with the overrides of the command
    /// line, noting in `diagnostics` an override that is not understood.
    pub fn resolve_noting(profile: Config, overrides: &Args, diagnostics: &mut Vec<Diagnostic>) -> (r:
        Config)
        ensures
            r@ == resolve_config(profile@, overrides@),
            diagnostic_views(final(diagnostics)@) == diagnostic_views(old(diagnostics)@)
                + resolve_notes(overrides@),
    {
        let ghost before = diagnostic_views(diagnostics@);
        let mut conf = profile;
        if let Some(title) = &overrides.title {
            conf.title = title.clone();
        }
        if let Some(message) = &overrides.message {
            conf.message = message.clone();
        }
        if let Some(timeout) = &overrides.timeout {
            conf.timeout = Config::parse_timeout_noting(timeout.as_str(), diagnostics);
        }
        let ghost middle = diagnostic_views(diagnostics@);
        if let Some(urgency) = &overrides.urgency {
            conf.urgency = Config::parse_urgency_noting(urgency.as_str(), diagnostics);
        }
        conf.command = copy_texts(&overrides.command);
        assert(middle =~= before + match overrides@.timeout {
            Some(t) => timeout_text_notes(t),
            None => Seq::empty(),
        });
        assert(diagnostic_views(diagnostics@) =~= before + resolve_notes(overrides@));
        conf
    }

    /// Overlays a profile's configuration with the overrides of the command
    /// line.
    pub fn resolve(profile: Config, overrides: &Args) -> (r: Config)
        ensures
            r@ == resolve_config(profile@, overrides@),
    {
        let mut ignored: Vec<Diagnostic> = Vec::new();
        Config::resolve_noting(profile, overrides, &mut ignored)
    }

    /// The effective configuration of a parsed command line against an
    /// optional configuration document, noting in `diagnostics` what is not
    /// understood.
    pub fn from_args_noting(
        args: &Args,
        toml_config: &Option<TomlConfig>,
        diagnostics: &mut Vec<Diagnostic>,
    ) -> (r: Config)
        ensures
            r@ == effective_config(args@, declared_profiles(*toml_config)),
            diagnostic_views(final(diagnostics)@) == diagnostic_views(old(diagnostics)@)
                + effective_notes(args@, declared_profiles(*toml_config)),
    {
        let ghost before = diagnostic_views(diagnostics@);
        let profile = match toml_config {
            Some(tc) => Config::from_toml_noting(args.get_profile(), tc, diagnostics),
            None => {
                let empty = TomlConfig { profile: None };
                Config::from_toml_noting(args.get_profile(), &empty, diagnostics)
            },
        };
        let r = Config::resolve_noting(profile, args, diagnostics);
        assert(diagnostic_views(diagnostics@) =~= before + effective_notes(
            args@,
            declared_profiles(*toml_config),
        ));
        r
    }

    /// The effective configuration of a command line that the grammar
    /// accepts, program name first, against an optional configuration
    /// document.
    pub fn new_from(arguments: Vec<String>, toml_config: &Option<TomlConfig>) -> (r: Config)
        requires
            parse_args(texts(arguments@)) is Ok,
        ensures
            r@ == effective_config(
                parse_args(texts(arguments@))->Ok_0,
                declared_profiles(*toml_config),
            ),
    {
        match Args::try_parse_from_strings(&arguments) {
            Ok(args) => {
                let mut ignored: Vec<Diagnostic> = Vec::new();
                Config::from_args_noting(&args, toml_config, &mut ignored)
            },
            Err(_) => {
                assert(false);
                Config::default_config()
            },
        }
    }
}

} // verus!
