//! The command line: options that override the profile's display settings,
//! then the command to run with its arguments, passed on verbatim.
//!
//! Before the command, an option is written `--name value`, `--name=value`,
//! `-x value`, `-xvalue` or `-x=value`; each option may be given once, and a
//! value written as a token of its own may not begin with `-` unless it is a
//! lone `-`. The first token that does not begin with `-` starts the
//! command, and so does the token after `--`. `-h`/`--help` and
//! `-V`/`--version` ask for the help text and the version. The first token is
//! the program's own name.

use vstd::prelude::*;
use vstd::string::StrSliceExecFns;

use crate::text::{optional_text, same_text, texts};

verus! {

/// The options that take a value.
#[derive(Clone, Copy, Debug, PartialEq, Eq, Structural)]
pub enum OptionFlag {
    /// `-p`, `--profile`: the profile to use.
    Profile,
    /// `-t`, `--title`: the notification's title.
    Title,
    /// `-m`, `--message`: the notification's contents.
    Message,
    /// `-o`, `--timeout`: the notification's timeout.
    Timeout,
    /// `-u`, `--urgency`: the notification's urgency.
    Urgency,
}

/// The parsed command line.
#[derive(Debug)]
pub struct Args {
    /// The profile to use; `default` when none is named.
    pub profile: String,
    pub title: Option<String>,
    pub message: Option<String>,
    pub timeout: Option<String>,
    pub urgency: Option<String>,
    /// The command with its arguments.
    pub command: Vec<String>,
}

/// The mathematical model of [`Args`].
pub struct ArgsView {
    pub profile: Seq<char>,
    pub title: Option<Seq<char>>,
    pub message: Option<Seq<char>>,
    pub timeout: Option<Seq<char>>,
    pub urgency: Option<Seq<char>>,
    pub command: Seq<Seq<char>>,
}

impl View for Args {
    type V = ArgsView;

    open spec fn view(&self) -> ArgsView {
        ArgsView {
            profile: self.profile@,
            title: optional_text(self.title),
            message: optional_text(self.message),
            timeout: optional_text(self.timeout),
            urgency: optional_text(self.urgency),
            command: texts(self.command@),
        }
    }
}

/// Why a command line was not accepted.
#[derive(Debug)]
pub enum ArgsError {
    /// `-h` or `--help` was given.
    HelpRequested,
    /// `-V` or `--version` was given.
    VersionRequested,
    /// An option that does not exist.
    UnknownArgument(String),
    /// An option whose value is missing.
    MissingValue(String),
    /// An option given a second time.
    RepeatedOption(String),
    /// No command was given.
    MissingCommand,
}

/// The mathematical model of an [`ArgsError`].
pub enum ArgsErrorView {
    HelpRequested,
    VersionRequested,
    UnknownArgument(Seq<char>),
    MissingValue(Seq<char>),
    RepeatedOption(Seq<char>),
    MissingCommand,
}

impl View for ArgsError {
    type V = ArgsErrorView;

    open spec fn view(&self) -> ArgsErrorView {
        match self {
            ArgsError::HelpRequested => ArgsErrorView::HelpRequested,
            ArgsError::VersionRequested => ArgsErrorView::VersionRequested,
            ArgsError::UnknownArgument(s) => ArgsErrorView::UnknownArgument(s@),
            ArgsError::MissingValue(s) => ArgsErrorView::MissingValue(s@),
            ArgsError::RepeatedOption(s) => ArgsErrorView::RepeatedOption(s@),
            ArgsError::MissingCommand => ArgsErrorView::MissingCommand,
        }
    }
}

pub open spec fn parse_result_view(r: Result<Args, ArgsError>) -> Result<ArgsView, ArgsErrorView> {
    match r {
        Ok(a) => Ok(a@),
        Err(e) => Err(e@),
    }
}

/// How a token before the command reads.
pub enum TokenClass {
    EndOfOptions,
    Help,
    Version,
    Positional,
    Flag(OptionFlag, Option<Seq<char>>),
    Unknown,
}

/// Whether a token is written as an option: a `-` and at least one more
/// character. A lone `-` is an ordinary value.
pub open spec fn is_option_like(t: Seq<char>) -> bool {
    t.len() > 1 && t[0] == '-'
}

pub open spec fn long_flag(name: Seq<char>) -> Option<OptionFlag> {
    if name == "profile"@ {
        Some(OptionFlag::Profile)
    } else if name == "title"@ {
        Some(OptionFlag::Title)
    } else if name == "message"@ {
        Some(OptionFlag::Message)
    } else if name == "timeout"@ {
        Some(OptionFlag::Timeout)
    } else if name == "urgency"@ {
        Some(OptionFlag::Urgency)
    } else {
        None
    }
}

pub open spec fn short_flag(c: char) -> Option<OptionFlag> {
    if c == 'p' {
        Some(OptionFlag::Profile)
    } else if c == 't' {
        Some(OptionFlag::Title)
    } else if c == 'm' {
        Some(OptionFlag::Message)
    } else if c == 'o' {
        Some(OptionFlag::Timeout)
    } else if c == 'u' {
        Some(OptionFlag::Urgency)
    } else {
        None
    }
}

/// The first position at or after `from` that holds `c`, or the length of
/// `s` when there is none.
pub open spec fn find_char(s: Seq<char>, c: char, from: int) -> int
    decreases s.len() - from,
{
    if from >= s.len() {
        s.len() as int
    } else if s[from] == c {
        from
    } else {
        find_char(s, c, from + 1)
    }
}

/// How a token before the command reads.
pub open spec fn classify(t: Seq<char>) -> TokenClass {
    if t == "--"@ {
        TokenClass::EndOfOptions
    } else if t == "-h"@ || t == "--help"@ {
        TokenClass::Help
    } else if t == "-V"@ || t == "--version"@ {
        TokenClass::Version
    } else if !is_option_like(t) {
        TokenClass::Positional
    } else if t[1] == '-' {
        let body = t.subrange(2, t.len() as int);
        let k = find_char(body, '=', 0);
        let inline = if k < body.len() {
            Some(body.subrange(k + 1, body.len() as int))
        } else {
            None
        };
        match long_flag(body.subrange(0, k)) {
            Some(f) => TokenClass::Flag(f, inline),
            None => TokenClass::Unknown,
        }
    } else {
        let rest = t.subrange(2, t.len() as int);
        let inline = if rest.len() == 0 {
            None
        } else if rest[0] == '=' {
            Some(rest.drop_first())
        } else {
            Some(rest)
        };
        match short_flag(t[1]) {
            Some(f) => TokenClass::Flag(f, inline),
            None => TokenClass::Unknown,
        }
    }
}

/// The option values read so far.
pub struct OverridesView {
    pub profile: Option<Seq<char>>,
    pub title: Option<Seq<char>>,
    pub message: Option<Seq<char>>,
    pub timeout: Option<Seq<char>>,
    pub urgency: Option<Seq<char>>,
}

impl OverridesView {
    pub open spec fn empty() -> OverridesView {
        OverridesView { profile: None, title: None, message: None, timeout: None, urgency: None }
    }

    pub open spec fn get(self, f: OptionFlag) -> Option<Seq<char>> {
        match f {
            OptionFlag::Profile => self.profile,
            OptionFlag::Title => self.title,
            OptionFlag::Message => self.message,
            OptionFlag::Timeout => self.timeout,
            OptionFlag::Urgency => self.urgency,
        }
    }

    pub open spec fn set(self, f: OptionFlag, v: Seq<char>) -> OverridesView {
        match f {
            OptionFlag::Profile => OverridesView { profile: Some(v), ..self },
            OptionFlag::Title => OverridesView { title: Some(v), ..self },
            OptionFlag::Message => OverridesView { message: Some(v), ..self },
            OptionFlag::Timeout => OverridesView { timeout: Some(v), ..self },
            OptionFlag::Urgency => OverridesView { urgency: Some(v), ..self },
        }
    }

    /// The parsed command line once the command is found.
    pub open spec fn finish(self, command: Seq<Seq<char>>) -> ArgsView {
        ArgsView {
            profile: match self.profile {
                Some(p) => p,
                None => "default"@,
            },
            title: self.title,
            message: self.message,
            timeout: self.timeout,
            urgency: self.urgency,
            command,
        }
    }
}

/// The outcome of reading the tokens from position `i` on, with the option
/// values `acc` read before it.
pub open spec fn scan_args(argv: Seq<Seq<char>>, i: int, acc: OverridesView) -> Result<
    ArgsView,
    ArgsErrorView,
>
    decreases argv.len() - i,
{
    if i < 0 || i >= argv.len() {
        Err(ArgsErrorView::MissingCommand)
    } else {
        let t = argv[i];
        match classify(t) {
            TokenClass::EndOfOptions => if i + 1 < argv.len() {
                Ok(acc.finish(argv.subrange(i + 1, argv.len() as int)))
            } else {
                Err(ArgsErrorView::MissingCommand)
            },
            TokenClass::Help => Err(ArgsErrorView::HelpRequested),
            TokenClass::Version => Err(ArgsErrorView::VersionRequested),
            TokenClass::Positional => Ok(acc.finish(argv.subrange(i, argv.len() as int))),
            TokenClass::Unknown => Err(ArgsErrorView::UnknownArgument(t)),
            TokenClass::Flag(f, inline) => if acc.get(f) is Some {
                Err(ArgsErrorView::RepeatedOption(t))
            } else {
                match inline {
                    Some(v) => scan_args(argv, i + 1, acc.set(f, v)),
                    None => if i + 1 < argv.len() && !is_option_like(argv[i + 1]) {
                        scan_args(argv, i + 2, acc.set(f, argv[i + 1]))
                    } else {
                        Err(ArgsErrorView::MissingValue(t))
                    },
                }
            },
        }
    }
}

/// The outcome of reading a whole command line, program name first.
pub open spec fn parse_args(argv: Seq<Seq<char>>) -> Result<ArgsView, ArgsErrorView> {
    scan_args(argv, 1, OverridesView::empty())
}


/// A token before the command, read.
enum Token {
    EndOfOptions,
    Help,
    Version,
    Positional,
    Flag(OptionFlag, Option<String>),
    Unknown,
}

spec fn token_view(t: Token) -> TokenClass {
    match t {
        Token::EndOfOptions => TokenClass::EndOfOptions,
        Token::Help => TokenClass::Help,
        Token::Version => TokenClass::Version,
        Token::Positional => TokenClass::Positional,
        Token::Flag(f, v) => TokenClass::Flag(f, optional_text(v)),
        Token::Unknown => TokenClass::Unknown,
    }
}

fn find_char_in(s: &str, c: char) -> (r: usize)
    ensures
        r == find_char(s@, c, 0),
        r <= s@.len(),
{
    let n = s.unicode_len();
    let mut i: usize = 0;
    while i < n
        invariant
            i <= n,
            n == s@.len(),
            find_char(s@, c, i as int) == find_char(s@, c, 0),
        decreases n - i,
    {
        if s.get_char(i) == c {
            return i;
        }
        i = i + 1;
    }
    i
}

fn long_flag_of(name: &str) -> (r: Option<OptionFlag>)
    ensures
        r == long_flag(name@),
{
    if same_text(name, "profile") {
        Some(OptionFlag::Profile)
    } else if same_text(name, "title") {
        Some(OptionFlag::Title)
    } else if same_text(name, "message") {
        Some(OptionFlag::Message)
    } else if same_text(name, "timeout") {
        Some(OptionFlag::Timeout)
    } else if same_text(name, "urgency") {
        Some(OptionFlag::Urgency)
    } else {
        None
    }
}

fn short_flag_of(c: char) -> (r: Option<OptionFlag>)
    ensures
        r == short_flag(c),
{
    if c == 'p' {
        Some(OptionFlag::Profile)
    } else if c == 't' {
        Some(OptionFlag::Title)
    } else if c == 'm' {
        Some(OptionFlag::Message)
    } else if c == 'o' {
        Some(OptionFlag::Timeout)
    } else if c == 'u' {
        Some(OptionFlag::Urgency)
    } else {
        None
    }
}

fn option_like(t: &str) -> (r: bool)
    ensures
        r == is_option_like(t@),
{
    t.unicode_len() > 1 && t.get_char(0) == '-'
}

fn classify_token(t: &str) -> (r: Token)
    ensures
        token_view(r) == classify(t@),
{
    if same_text(t, "--") {
        return Token::EndOfOptions;
    }
    if same_text(t, "-h") || same_text(t, "--help") {
        return Token::Help;
    }
    if same_text(t, "-V") || same_text(t, "--version") {
        return Token::Version;
    }
    if !option_like(t) {
        return Token::Positional;
    }
    let n = t.unicode_len();
    if t.get_char(1) == '-' {
        let body = t.substring_char(2, n);
        let m = body.unicode_len();
        let k = find_char_in(body, '=');
        let inline = if k < m {
            Some(body.substring_char(k + 1, m).to_owned())
        } else {
            None
        };
        match long_flag_of(body.substring_char(0, k)) {
            Some(f) => Token::Flag(f, inline),
            None => Token::Unknown,
        }
    } else {
        let rest = t.substring_char(2, n);
        let m = rest.unicode_len();
        let inline = if m == 0 {
            None
        } else if rest.get_char(0) == '=' {
            Some(rest.substring_char(1, m).to_owned())
        } else {
            Some(rest.to_owned())
        };
        proof {
            assert(rest@.len() > 0 ==> rest@.drop_first() =~= rest@.subrange(1, m as int));
        }
        match short_flag_of(t.get_char(1)) {
            Some(f) => Token::Flag(f, inline),
            None => Token::Unknown,
        }
    }
}

/// The option values read so far.
struct Overrides {
    profile: Option<String>,
    title: Option<String>,
    message: Option<String>,
    timeout: Option<String>,
    urgency: Option<String>,
}

impl View for Overrides {
    type V = OverridesView;

    closed spec fn view(&self) -> OverridesView {
        OverridesView {
            profile: optional_text(self.profile),
            title: optional_text(self.title),
            message: optional_text(self.message),
            timeout: optional_text(self.timeout),
            urgency: optional_text(self.urgency),
        }
    }
}

impl Overrides {
    fn has(&self, f: OptionFlag) -> (r: bool)
        ensures
            r == self@.get(f) is Some,
    {
        match f {
            OptionFlag::Profile => self.profile.is_some(),
            OptionFlag::Title => self.title.is_some(),
            OptionFlag::Message => self.message.is_some(),
            OptionFlag::Timeout => self.timeout.is_some(),
            OptionFlag::Urgency => self.urgency.is_some(),
        }
    }

    fn set(&mut self, f: OptionFlag, v: String)
        ensures
            final(self)@ == old(self)@.set(f, v@),
    {
        match f {
            OptionFlag::Profile => self.profile = Some(v),
            OptionFlag::Title => self.title = Some(v),
            OptionFlag::Message => self.message = Some(v),
            OptionFlag::Timeout => self.timeout = Some(v),
            OptionFlag::Urgency => self.urgency = Some(v),
        }
    }

    /// The parsed command line whose command is `argv` from `from` on.
    fn finish(self, argv: &Vec<String>, from: usize) -> (r: Args)
        requires
            from <= argv@.len(),
        ensures
            r@ == self@.finish(texts(argv@).subrange(from as int, argv@.len() as int)),
    {
        let mut command: Vec<String> = Vec::new();
        let mut i: usize = from;
        while i < argv.len()
            invariant
                from <= i <= argv@.len(),
                texts(command@) == texts(argv@).subrange(from as int, i as int),
            decreases argv@.len() - i,
        {
            let ghost before = command@;
            let item = argv[i].clone();
            assert(item@ == texts(argv@)[i as int]);
            command.push(item);
            assert(texts(command@) =~= texts(before).push(item@));
            assert(texts(argv@).subrange(from as int, i + 1) =~= texts(argv@).subrange(
                from as int,
                i as int,
            ).push(item@));
            i = i + 1;
        }
        let profile = match self.profile {
            Some(p) => p,
            None => "default".to_owned(),
        };
        Args {
            profile,
            title: self.title,
            message: self.message,
            timeout: self.timeout,
            urgency: self.urgency,
            command,
        }
    }
}

/// The texts of a list of string slices, in order.
pub open spec fn str_texts(v: Seq<&str>) -> Seq<Seq<char>> {
    v.map_values(|s: &str| s@)
}

impl Args {
    /// Parses a command line given as owned strings, program name first.
    pub fn try_parse_from_strings(argv: &Vec<String>) -> (r: Result<Args, ArgsError>)
        ensures
            parse_result_view(r) == parse_args(texts(argv@)),
    {
        let ghost tokens = texts(argv@);
        let n = argv.len();
        if n == 0 {
            return Err(ArgsError::MissingCommand);
        }
        let mut acc = Overrides {
            profile: None,
            title: None,
            message: None,
            timeout: None,
            urgency: None,
        };
        let mut i: usize = 1;
        while i < n
            invariant
                1 <= i <= n,
                n == argv@.len(),
                tokens == texts(argv@),
                scan_args(tokens, i as int, acc@) == parse_args(tokens),
            decreases n - i,
        {
            let t = argv[i].as_str();
            assert(t@ == tokens[i as int]);
            match classify_token(t) {
                Token::EndOfOptions => {
                    if i + 1 < n {
                        return Ok(acc.finish(argv, i + 1));
                    } else {
                        return Err(ArgsError::MissingCommand);
                    }
                },
                Token::Help => {
                    return Err(ArgsError::HelpRequested);
                },
                Token::Version => {
                    return Err(ArgsError::VersionRequested);
                },
                Token::Positional => {
                    return Ok(acc.finish(argv, i));
                },
                Token::Unknown => {
                    return Err(ArgsError::UnknownArgument(t.to_owned()));
                },
                Token::Flag(f, inline) => {
                    if acc.has(f) {
                        return Err(ArgsError::RepeatedOption(t.to_owned()));
                    }
                    match inline {
                        Some(v) => {
                            acc.set(f, v);
                            i = i + 1;
                        },
                        None => {
                            if i + 1 < n && !option_like(argv[i + 1].as_str()) {
                                acc.set(f, argv[i + 1].clone());
                                i = i + 2;
                            } else {
                                return Err(ArgsError::MissingValue(t.to_owned()));
                            }
                        },
                    }
                },
            }
        }
        Err(ArgsError::MissingCommand)
    }

    /// Parses a command line, program name first.
    pub fn try_parse_from(args: Vec<&str>) -> (r: Result<Args, ArgsError>)
        ensures
            parse_result_view(r) == parse_args(str_texts(args@)),
    {
        let mut owned: Vec<String> = Vec::new();
        let mut i: usize = 0;
        while i < args.len()
            invariant
                i <= args@.len(),
                texts(owned@) == str_texts(args@).subrange(0, i as int),
            decreases args@.len() - i,
        {
            let ghost before = owned@;
            let item = args[i].to_owned();
            assert(item@ == str_texts(args@)[i as int]);
            owned.push(item);
            assert(texts(owned@) =~= texts(before).push(item@));
            assert(str_texts(args@).subrange(0, i + 1) =~= str_texts(args@).subrange(
                0,
                i as int,
            ).push(item@));
            i = i + 1;
        }
        assert(str_texts(args@).subrange(0, i as int) =~= str_texts(args@));
        Args::try_parse_from_strings(&owned)
    }

    /// Parses a command line that the grammar accepts, program name first.
    pub fn parse_from(args: Vec<&str>) -> (r: Args)
        requires
            parse_args(str_texts(args@)) is Ok,
        ensures
            parse_args(str_texts(args@)) == Ok::<ArgsView, ArgsErrorView>(r@),
    {
        match Args::try_parse_from(args) {
            Ok(a) => a,
            Err(_) => {
                assert(false);
                Args {
                    profile: String::new(),
                    title: None,
                    message: None,
                    timeout: None,
                    urgency: None,
                    command: Vec::new(),
                }
            },
        }
    }

    /// The name of the profile to use.
    pub fn get_profile(&self) -> (r: &str)
        ensures
            r@ == self.profile@,
    {
        self.profile.as_str()
    }
}

} // verus!
