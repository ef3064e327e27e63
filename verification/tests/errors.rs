use std::io;
use waylock_config::{Config, ConfigError, Role, TomlError};

#[test]
fn an_absent_file_becomes_not_found() {
    let err = io::Error::from(io::ErrorKind::NotFound);
    assert!(matches!(ConfigError::from(err), ConfigError::NotFound));
    let err = io::Error::new(io::ErrorKind::NotFound, "no such file");
    assert!(matches!(ConfigError::from(err), ConfigError::NotFound));
    let err = io::Error::from_raw_os_error(2);
    assert_eq!(err.kind(), io::ErrorKind::NotFound);
    assert!(matches!(ConfigError::from(err), ConfigError::NotFound));
}

#[test]
fn every_other_failure_keeps_its_cause() {
    let kinds = vec![
        io::ErrorKind::PermissionDenied,
        io::ErrorKind::InvalidData,
        io::ErrorKind::Interrupted,
        io::ErrorKind::UnexpectedEof,
        io::ErrorKind::Other,
    ];
    for kind in kinds {
        match ConfigError::from(io::Error::new(kind, "cause")) {
            ConfigError::Io(err) => {
                assert_eq!(err.kind(), kind);
                assert_eq!(err.to_string(), "cause");
            }
            other => panic!("{:?}", other),
        }
    }
}

#[test]
fn a_report_of_the_parser_becomes_a_toml_error() {
    let report = "colors = [oops".parse::<toml::Value>().unwrap_err();
    let expected = report.clone();
    match ConfigError::from(report) {
        ConfigError::Toml(TomlError::Syntax(err)) => assert_eq!(err, expected),
        other => panic!("{:?}", other),
    }
}

#[test]
fn not_found_has_a_message_of_its_own() {
    assert_eq!(ConfigError::NotFound.message(), "Couldn't find the config file");
}

#[test]
fn an_io_error_shows_its_cause() {
    let err = io::Error::new(io::ErrorKind::PermissionDenied, "permission denied");
    assert_eq!(
        ConfigError::Io(err).message(),
        "I/O error reading the config file: permission denied"
    );
}

#[test]
fn a_toml_error_shows_its_cause() {
    let report = "colors = [oops".parse::<toml::Value>().unwrap_err();
    let cause = report.to_string();
    assert!(!cause.is_empty());
    assert_eq!(TomlError::Syntax(report.clone()).message(), cause);
    assert_eq!(
        ConfigError::Toml(TomlError::Syntax(report)).message(),
        format!("TOML error reading the config file: {}", cause)
    );
}

#[test]
fn a_mismatch_says_what_is_wrong() {
    assert_eq!(TomlError::MissingColors.message(), "missing field `colors`");
    assert_eq!(
        TomlError::ColorsNotTable.message(),
        "invalid type for `colors`: expected a table"
    );
    assert_eq!(
        TomlError::InvalidColor(Role::Init).message(),
        "invalid value for `colors.init_color`: expected an integer from 0 to 4294967295"
    );
    assert_eq!(
        TomlError::InvalidColor(Role::Input).message(),
        "invalid value for `colors.input_color`: expected an integer from 0 to 4294967295"
    );
    assert_eq!(
        TomlError::InvalidColor(Role::Fail).message(),
        "invalid value for `colors.fail_color`: expected an integer from 0 to 4294967295"
    );
    assert_eq!(
        ConfigError::Toml(TomlError::MissingColors).message(),
        "TOML error reading the config file: missing field `colors`"
    );
}

#[test]
fn a_syntax_error_says_where() {
    let message = match Config::parse("[colors]\ninit_color = \n") {
        Err(err) => err.message(),
        Ok(config) => panic!("{:?}", config),
    };
    assert!(message.contains("line 2"), "{}", message);
}

#[test]
fn a_failure_is_classified_by_the_kind_that_is_given() {
    let cause = io::Error::new(io::ErrorKind::Other, "gone");
    assert!(matches!(
        ConfigError::from_kind(io::ErrorKind::NotFound, cause),
        ConfigError::NotFound
    ));
    let cause = io::Error::new(io::ErrorKind::Other, "busy");
    match ConfigError::from_kind(io::ErrorKind::TimedOut, cause) {
        ConfigError::Io(err) => assert_eq!(err.to_string(), "busy"),
        other => panic!("{:?}", other),
    }
}
