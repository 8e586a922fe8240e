use notify_complete::{Args, ArgsError};

#[test]
fn args_no_cmd() {
    let args = vec!["notify-complete"];
    let result = Args::try_parse_from(args);
    assert!(result.is_err());
}

#[test]
fn args_cmd_only() {
    let args = vec!["notify-complete", "fake-cmd"];
    let parsed = Args::parse_from(args);

    assert_eq!(parsed.profile, "default");
    assert_eq!(parsed.title, None);
    assert_eq!(parsed.message, None);
    assert_eq!(parsed.timeout, None);
    assert_eq!(parsed.urgency, None);
    assert_eq!(parsed.command, vec!["fake-cmd"]);
}

#[test]
fn args_all() {
    let args = vec![
        "notify-complete",
        "-p",
        "test-profile",
        "-t",
        "Unit test",
        "-m",
        "This is a unit test.",
        "-o",
        "never",
        "-u",
        "low",
        "fake-cmd",
        "--option",
        "yes",
    ];
    let parsed = Args::parse_from(args);

    assert_eq!(parsed.profile, "test-profile");
    assert_eq!(parsed.title.unwrap(), "Unit test");
    assert_eq!(parsed.message.unwrap(), "This is a unit test.");
    assert_eq!(parsed.timeout.unwrap(), "never");
    assert_eq!(parsed.urgency.unwrap(), "low");
    assert_eq!(parsed.command, vec!["fake-cmd", "--option", "yes"]);
}

#[test]
fn long_options_with_and_without_equals() {
    let parsed = Args::parse_from(vec![
        "run",
        "--profile=work",
        "--title",
        "T",
        "--message=a=b",
        "--timeout",
        "10",
        "--urgency=critical",
        "make",
    ]);
    assert_eq!(parsed.get_profile(), "work");
    assert_eq!(parsed.title.as_deref(), Some("T"));
    assert_eq!(parsed.message.as_deref(), Some("a=b"));
    assert_eq!(parsed.timeout.as_deref(), Some("10"));
    assert_eq!(parsed.urgency.as_deref(), Some("critical"));
    assert_eq!(parsed.command, vec!["make"]);
}

#[test]
fn short_options_with_attached_values() {
    let parsed = Args::parse_from(vec!["run", "-pwork", "-t=T", "-m", "", "ls"]);
    assert_eq!(parsed.profile, "work");
    assert_eq!(parsed.title.as_deref(), Some("T"));
    assert_eq!(parsed.message.as_deref(), Some(""));
    assert_eq!(parsed.command, vec!["ls"]);
}

#[test]
fn double_dash_starts_the_command() {
    let parsed = Args::parse_from(vec!["run", "-u", "low", "--", "-t", "x"]);
    assert_eq!(parsed.urgency.as_deref(), Some("low"));
    assert_eq!(parsed.title, None);
    assert_eq!(parsed.command, vec!["-t", "x"]);
    assert!(matches!(
        Args::try_parse_from(vec!["run", "--"]),
        Err(ArgsError::MissingCommand)
    ));
}

#[test]
fn lone_dash_is_a_value() {
    let parsed = Args::parse_from(vec!["run", "-m", "-", "-"]);
    assert_eq!(parsed.message.as_deref(), Some("-"));
    assert_eq!(parsed.command, vec!["-"]);
}

#[test]
fn rejected_command_lines() {
    assert!(matches!(Args::try_parse_from(vec![]), Err(ArgsError::MissingCommand)));
    assert!(matches!(
        Args::try_parse_from(vec!["run", "-p", "work"]),
        Err(ArgsError::MissingCommand)
    ));
    assert!(matches!(
        Args::try_parse_from(vec!["run", "--colour", "ls"]),
        Err(ArgsError::UnknownArgument(s)) if s == "--colour"
    ));
    assert!(matches!(
        Args::try_parse_from(vec!["run", "-x", "ls"]),
        Err(ArgsError::UnknownArgument(s)) if s == "-x"
    ));
    assert!(matches!(
        Args::try_parse_from(vec!["run", "-t"]),
        Err(ArgsError::MissingValue(s)) if s == "-t"
    ));
    assert!(matches!(
        Args::try_parse_from(vec!["run", "--title", "-m", "x", "ls"]),
        Err(ArgsError::MissingValue(s)) if s == "--title"
    ));
    assert!(matches!(
        Args::try_parse_from(vec!["run", "-t", "a", "--title=b", "ls"]),
        Err(ArgsError::RepeatedOption(s)) if s == "--title=b"
    ));
    assert!(matches!(
        Args::try_parse_from(vec!["run", "--help", "ls"]),
        Err(ArgsError::HelpRequested)
    ));
    assert!(matches!(
        Args::try_parse_from(vec!["run", "-V"]),
        Err(ArgsError::VersionRequested)
    ));
}

#[test]
fn help_after_the_command_belongs_to_the_command() {
    let parsed = Args::parse_from(vec!["run", "ls", "--help"]);
    assert_eq!(parsed.command, vec!["ls", "--help"]);
}
