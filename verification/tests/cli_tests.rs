use luanti::cli::{parse_args, parse_mode, AuthDbMode, CliError, ServerConfig};
use std::str::FromStr;

#[test]
fn defaults_to_sqlite() {
    let cfg = parse_args(&[]).unwrap();
    assert_eq!(cfg.auth_db_mode, AuthDbMode::Sqlite3);
    assert!(cfg.positionals.is_empty());
}

#[test]
fn space_separated_value() {
    let cfg = parse_args(&["--auth-db-mode", "memory"]).unwrap();
    assert_eq!(cfg.auth_db_mode, AuthDbMode::Memory);
}

#[test]
fn equals_separated_value() {
    let cfg = parse_args(&["--auth-db-mode=postgres"]).unwrap();
    assert_eq!(cfg.auth_db_mode, AuthDbMode::Postgres);
}

#[test]
fn accepts_aliases() {
    for (raw, expected) in [
        ("sqlite", AuthDbMode::Sqlite3),
        ("sqlite3", AuthDbMode::Sqlite3),
        ("mem", AuthDbMode::Memory),
        ("memory", AuthDbMode::Memory),
        ("pg", AuthDbMode::Postgres),
        ("postgres", AuthDbMode::Postgres),
        ("postgresql", AuthDbMode::Postgres),
    ] {
        let arg = format!("--auth-db-mode={}", raw);
        let cfg = parse_args(&[arg.as_str()]).unwrap();
        assert_eq!(cfg.auth_db_mode, expected, "raw = {}", raw);
    }
}

#[test]
fn invalid_value_errors() {
    let err = parse_args(&["--auth-db-mode=mongodb"]).unwrap_err();
    match err {
        CliError::InvalidValue { flag, value, .. } => {
            assert_eq!(flag, "--auth-db-mode");
            assert_eq!(value, "mongodb");
        },
        other => panic!("unexpected error: {:?}", other),
    }
}

#[test]
fn missing_value_errors() {
    let err = parse_args(&["--auth-db-mode"]).unwrap_err();
    assert!(matches!(err, CliError::MissingValue { .. }));
}

#[test]
fn help_flag_short_and_long() {
    for flag in ["-h", "--help"] {
        let err = parse_args(&[flag]).unwrap_err();
        assert!(matches!(err, CliError::HelpRequested));
    }
}

#[test]
fn unknown_flag_errors() {
    let err = parse_args(&["--no-such-flag"]).unwrap_err();
    match err {
        CliError::UnknownFlag { flag } => assert_eq!(flag, "--no-such-flag"),
        other => panic!("unexpected error: {:?}", other),
    }
}

#[test]
fn positionals_are_kept() {
    let cfg = parse_args(&["--auth-db-mode=memory", "extra", "args"]).unwrap();
    assert_eq!(cfg.auth_db_mode, AuthDbMode::Memory);
    assert_eq!(cfg.positionals, vec!["extra", "args"]);
}

#[test]
fn world_dir_is_recorded() {
    let cfg = parse_args(&["--world-dir", "/tmp/world"]).unwrap();
    assert_eq!(cfg.positionals, vec!["--world-dir=/tmp/world"]);
}

#[test]
fn from_str_round_trip() {
    for mode in [AuthDbMode::Sqlite3, AuthDbMode::Memory, AuthDbMode::Postgres] {
        let parsed = AuthDbMode::from_str(mode.as_str()).unwrap();
        assert_eq!(parsed, mode);
        assert_eq!(parsed.as_str(), mode.as_str());
    }
}

#[test]
fn mode_names_and_case() {
    assert_eq!(AuthDbMode::Sqlite3.as_str(), "sqlite3");
    assert_eq!(AuthDbMode::Memory.as_str(), "memory");
    assert_eq!(AuthDbMode::Postgres.as_str(), "postgres");
    assert!(parse_mode("SQLite").is_err());
    match parse_mode("x") {
        Err(CliError::InvalidValue { flag, value, hint }) => {
            assert_eq!(flag, "--auth-db-mode");
            assert_eq!(value, "x");
            assert_eq!(hint, "expected one of: sqlite3, memory, postgres");
        },
        _ => panic!("expected an invalid value"),
    }
    assert!(parse_mode("").is_err());
    assert_eq!(ServerConfig::default().auth_db_mode, AuthDbMode::Sqlite3);
}

#[test]
fn last_mode_flag_wins_and_world_dir_equals_form() {
    let cfg = parse_args(&["--auth-db-mode=pg", "--world-dir=/w", "--auth-db-mode", "mem"]).unwrap();
    assert_eq!(cfg.auth_db_mode, AuthDbMode::Memory);
    assert_eq!(cfg.positionals, vec!["--world-dir=/w"]);
    assert!(matches!(parse_args(&["--world-dir"]).unwrap_err(), CliError::MissingValue { flag } if flag == "--world-dir"));
}
