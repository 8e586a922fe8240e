use notify_complete::{Config, Diagnostic, Timeout, TomlConfig, TomlProfile, TomlTimeout, Urgency};

fn bare_profile(name: &str) -> TomlProfile {
    TomlProfile {
        name: name.to_string(),
        icon: None,
        message: None,
        timeout: None,
        title: None,
        urgency: None,
        command: None,
    }
}

fn argv(items: &[&str]) -> Vec<String> {
    items.iter().map(|s| s.to_string()).collect()
}

#[test]
fn config_defaults() {
    let tc = TomlConfig { profile: None };
    let c = Config::from_toml("doesn't matter", &tc);

    assert_eq!(c.icon, Config::default_icon());
    assert_eq!(c.message, Config::default_message());
    assert_eq!(c.timeout, Config::default_timeout());
    assert_eq!(c.title, Config::default_title());
    assert_eq!(c.urgency, Config::default_urgency());
    assert_eq!(c.command, Config::default_command());
}

#[test]
fn profile_defaults() {
    let tp = bare_profile("test");
    let tc = TomlConfig {
        profile: Some(vec![tp]),
    };

    let c = Config::from_toml("test", &tc);

    assert_eq!(c.icon, Config::default_icon());
    assert_eq!(c.message, Config::default_message());
    assert_eq!(c.timeout, Config::default_timeout());
    assert_eq!(c.title, Config::default_title());
    assert_eq!(c.urgency, Config::default_urgency());
    assert_eq!(c.command, Config::default_command());
}

#[test]
fn profile_not_found() {
    let tp = bare_profile("test");
    let tc = TomlConfig {
        profile: Some(vec![tp]),
    };

    let c = Config::from_toml("does not exist", &tc);

    assert_eq!(c.icon, Config::default_icon());
    assert_eq!(c.message, Config::default_message());
    assert_eq!(c.timeout, Config::default_timeout());
    assert_eq!(c.title, Config::default_title());
    assert_eq!(c.urgency, Config::default_urgency());
    assert_eq!(c.command, Config::default_command());
}

#[test]
fn profile_values() {
    let tp = TomlProfile {
        name: "test".to_string(),
        icon: Some("icon".to_string()),
        message: Some("message".to_string()),
        timeout: Some(TomlTimeout::Text("5000".to_string())),
        title: Some("title".to_string()),
        urgency: Some("critical".to_string()),
        command: Some("echo hello".to_string()),
    };

    let tc = TomlConfig {
        profile: Some(vec![tp]),
    };

    let c = Config::from_toml("test", &tc);

    assert_eq!(c.icon, "icon");
    assert_eq!(c.message, "message");
    assert_eq!(c.timeout, Timeout::Milliseconds(5000));
    assert_eq!(c.title, "title");
    assert_eq!(c.urgency, Urgency::Critical);
    assert_eq!(c.command, vec!["echo", "hello"]);
}

#[test]
fn default_values() {
    let tc = TomlConfig { profile: None };
    let c = Config::new_from(
        vec!["notify-complete", "sleep", "1"]
            .iter()
            .map(|s| s.to_string())
            .collect(),
        &Some(tc),
    );

    assert_eq!(c.icon, Config::default_icon());
    assert_eq!(c.message, Config::default_message());
    assert_eq!(c.timeout, Config::default_timeout());
    assert_eq!(c.title, Config::default_title());
    assert_eq!(c.urgency, Config::default_urgency());
    assert_eq!(c.command, vec!["sleep", "1"]);
}

#[test]
fn profile() {
    let tp = TomlProfile {
        name: "test".to_string(),
        icon: Some("icon".to_string()),
        message: Some("message".to_string()),
        timeout: Some(TomlTimeout::Text("5000".to_string())),
        title: Some("title".to_string()),
        urgency: Some("critical".to_string()),
        command: None,
    };

    let tc = TomlConfig {
        profile: Some(vec![tp]),
    };

    let c = Config::new_from(
        vec!["notify-complete", "-p", "test", "echo", "test"]
            .iter()
            .map(|s| s.to_string())
            .collect(),
        &Some(tc),
    );

    assert_eq!(c.icon, "icon");
    assert_eq!(c.message, "message");
    assert_eq!(c.timeout, Timeout::Milliseconds(5000));
    assert_eq!(c.title, "title");
    assert_eq!(c.urgency, Urgency::Critical);
    assert_eq!(c.command, vec!["echo", "test"]);
}

#[test]
fn timeout_value_default() {
    let timeout = Config::parse_timeout("default");
    assert_eq!(timeout, Timeout::Default);
}

#[test]
fn timeout_value_never() {
    let timeout = Config::parse_timeout("never");
    assert_eq!(timeout, Timeout::Never);
}

#[test]
fn timeout_value_negative() {
    // if timeout < 0, print and error and use the default
    let timeout = Config::parse_timeout("-1");
    assert_eq!(timeout, Config::default_timeout());
}

#[test]
fn timeout_value_ms() {
    let timeout = Config::parse_timeout("3000");
    assert_eq!(timeout, Timeout::Milliseconds(3000));
}

#[test]
fn urgency_value_invalid() {
    let urgency = Config::parse_urgency("invalid");
    assert_eq!(urgency, Config::default_urgency());
}

#[test]
fn urgency_value_low() {
    let urgency = Config::parse_urgency("low");
    assert_eq!(urgency, Urgency::Low);
}

#[test]
fn urgency_value_normal() {
    let urgency = Config::parse_urgency("normal");
    assert_eq!(urgency, Urgency::Normal);
}

#[test]
fn urgency_value_critical() {
    let urgency = Config::parse_urgency("critical");
    assert_eq!(urgency, Urgency::Critical);
}

#[test]
fn timeout_text_edge_cases() {
    assert_eq!(Config::parse_timeout("0"), Timeout::Milliseconds(0));
    assert_eq!(Config::parse_timeout("+7"), Timeout::Milliseconds(7));
    assert_eq!(Config::parse_timeout("4294967295"), Timeout::Milliseconds(u32::MAX));
    assert_eq!(Config::parse_timeout("4294967296"), Timeout::Default);
    assert_eq!(Config::parse_timeout("99999999999999999999999"), Timeout::Default);
    assert_eq!(Config::parse_timeout(""), Timeout::Default);
    assert_eq!(Config::parse_timeout("+"), Timeout::Default);
    assert_eq!(Config::parse_timeout("12ab"), Timeout::Default);
    assert_eq!(Config::parse_timeout("Never"), Timeout::Default);
    assert_eq!(Config::parse_timeout(" 5"), Timeout::Default);
}

#[test]
fn timeout_number_encoding() {
    assert_eq!(Config::parse_timeout_number(-1), Timeout::Default);
    assert_eq!(Config::parse_timeout_number(0), Timeout::Never);
    assert_eq!(Config::parse_timeout_number(5000), Timeout::Milliseconds(5000));
    assert_eq!(Config::parse_timeout_number(4294967295), Timeout::Milliseconds(u32::MAX));
    assert_eq!(Config::parse_timeout_number(4294967296), Timeout::Default);
    assert_eq!(Config::parse_timeout_number(-2), Timeout::Default);
    assert_eq!(Config::parse_timeout_number(i64::MIN), Timeout::Default);
}

#[test]
fn invalid_values_are_reported() {
    let mut d = Vec::new();
    assert_eq!(Config::parse_timeout_noting("soon", &mut d), Timeout::Default);
    assert_eq!(Config::parse_timeout_noting("never", &mut d), Timeout::Never);
    assert_eq!(Config::parse_timeout_number_noting(-7, &mut d), Timeout::Default);
    assert_eq!(Config::parse_timeout_number_noting(-1, &mut d), Timeout::Default);
    assert_eq!(Config::parse_urgency_noting("LOW", &mut d), Urgency::Normal);
    assert_eq!(Config::parse_urgency_noting("low", &mut d), Urgency::Low);
    assert_eq!(d.len(), 3);
    assert!(matches!(&d[0], Diagnostic::InvalidTimeout(s) if s == "soon"));
    assert!(matches!(&d[1], Diagnostic::TimeoutOutOfRange(-7)));
    assert!(matches!(&d[2], Diagnostic::InvalidUrgency(s) if s == "LOW"));
}

#[test]
fn numeric_timeout_in_profile() {
    let mut tp = bare_profile("work");
    tp.timeout = Some(TomlTimeout::Number(0));
    let tc = TomlConfig {
        profile: Some(vec![tp]),
    };
    assert_eq!(Config::from_toml("work", &tc).timeout, Timeout::Never);
}

#[test]
fn last_declaration_wins() {
    let mut first = bare_profile("work");
    first.title = Some("first".to_string());
    let mut second = bare_profile("work");
    second.title = Some("second".to_string());
    let tc = TomlConfig {
        profile: Some(vec![first, second]),
    };
    assert_eq!(Config::from_toml("work", &tc).title, "second");
}

#[test]
fn declared_fields_do_not_leak_between_profiles() {
    let mut work = bare_profile("work");
    work.message = Some("from work".to_string());
    work.urgency = Some("critical".to_string());
    let home = bare_profile("home");
    let tc = TomlConfig {
        profile: Some(vec![work, home]),
    };
    let c = Config::from_toml("home", &tc);
    assert_eq!(c.message, "");
    assert_eq!(c.urgency, Urgency::Normal);
}

#[test]
fn unknown_profile_uses_declared_default() {
    let mut default = bare_profile("default");
    default.title = Some("fallback".to_string());
    let tc = TomlConfig {
        profile: Some(vec![bare_profile("work"), default]),
    };
    let mut d = Vec::new();
    let c = Config::from_toml_noting("missing", &tc, &mut d);
    assert_eq!(c.title, "fallback");
    assert_eq!(d.len(), 1);
    assert!(matches!(&d[0], Diagnostic::UnknownProfile(s) if s == "missing"));
}

#[test]
fn unknown_profile_matches_builtin_default() {
    let tc = TomlConfig {
        profile: Some(vec![bare_profile("work")]),
    };
    let a = Config::from_toml("nowhere", &tc);
    let b = Config::from_toml("default", &tc);
    assert_eq!(a.title, b.title);
    assert_eq!(a.title, "Command completed");
    assert_eq!(a.message, b.message);
    assert_eq!(a.icon, b.icon);
    assert_eq!(a.timeout, b.timeout);
    assert_eq!(a.urgency, b.urgency);
    let mut d = Vec::new();
    Config::from_toml_noting("default", &tc, &mut d);
    assert!(d.is_empty());
}

#[test]
fn profile_command_splits_on_white_space() {
    let mut tp = bare_profile("test");
    tp.command = Some("  echo\thello   world \n".to_string());
    let c = Config::from_toml_profile(&tp);
    assert_eq!(c.command, vec!["echo", "hello", "world"]);
}

#[test]
fn no_config_file_scenario() {
    let c = Config::new_from(argv(&["run", "-p", "default", "echo", "hi"]), &None);
    assert_eq!(c.title, "Command completed");
    assert_eq!(c.message, "");
    assert_eq!(c.timeout, Timeout::Default);
    assert_eq!(c.urgency, Urgency::Normal);
    assert_eq!(c.command, vec!["echo", "hi"]);
}

#[test]
fn override_beats_profile_scenario() {
    let mut work = bare_profile("work");
    work.urgency = Some("critical".to_string());
    work.timeout = Some(TomlTimeout::Number(5000));
    let tc = TomlConfig {
        profile: Some(vec![work]),
    };
    let c = Config::new_from(argv(&["run", "-p", "work", "--urgency", "low", "make"]), &Some(tc));
    assert_eq!(c.urgency, Urgency::Low);
    assert_eq!(c.timeout, Timeout::Milliseconds(5000));
    assert_eq!(c.command, vec!["make"]);
}

#[test]
fn unset_overrides_keep_profile_values() {
    let tp = TomlProfile {
        name: "p".to_string(),
        icon: Some("i".to_string()),
        message: Some("m".to_string()),
        timeout: Some(TomlTimeout::Text("never".to_string())),
        title: Some("t".to_string()),
        urgency: Some("low".to_string()),
        command: None,
    };
    let profile = Config::from_toml_profile(&tp);
    let args = notify_complete::Args::parse_from(vec!["run", "ls"]);
    let c = Config::resolve(profile, &args);
    assert_eq!(c.icon, "i");
    assert_eq!(c.message, "m");
    assert_eq!(c.timeout, Timeout::Never);
    assert_eq!(c.title, "t");
    assert_eq!(c.urgency, Urgency::Low);
    assert_eq!(c.command, vec!["ls"]);
}

#[test]
fn set_overrides_replace_profile_values() {
    let profile = Config::default_config();
    let args = notify_complete::Args::parse_from(vec![
        "run", "-t", "T", "-m", "M", "-o", "250", "-u", "critical", "ls", "-l",
    ]);
    let c = Config::resolve(profile, &args);
    assert_eq!(c.title, "T");
    assert_eq!(c.message, "M");
    assert_eq!(c.timeout, Timeout::Milliseconds(250));
    assert_eq!(c.urgency, Urgency::Critical);
    assert_eq!(c.command, vec!["ls", "-l"]);
}

#[test]
fn resolution_reports_in_order() {
    let mut bad = bare_profile("default");
    bad.timeout = Some(TomlTimeout::Text("later".to_string()));
    let tc = TomlConfig {
        profile: Some(vec![bad]),
    };
    let args = notify_complete::Args::parse_from(vec!["run", "-p", "x", "-u", "urgent", "ls"]);
    let mut d = Vec::new();
    let c = Config::from_args_noting(&args, &Some(tc), &mut d);
    assert_eq!(c.urgency, Urgency::Normal);
    assert_eq!(d.len(), 3);
    assert!(matches!(&d[0], Diagnostic::UnknownProfile(s) if s == "x"));
    assert!(matches!(&d[1], Diagnostic::InvalidTimeout(s) if s == "later"));
    assert!(matches!(&d[2], Diagnostic::InvalidUrgency(s) if s == "urgent"));
}
