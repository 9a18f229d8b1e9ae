use tas_server::errors::{is_would_block_error, is_would_block_io_error, is_would_block_io_result,
    is_would_block_result, misconfiguration, Error, ErrorKind, IoError, IoErrorKind};
use tas_server::members::{Members, Role, UserSettings};

fn strings(items: &[&str]) -> Vec<String> {
    items.iter().map(|s| s.to_string()).collect()
}

fn registry() -> Members {
    Members::new(
        vec![
            Role { title: "guest".to_string(), allowed_commands: strings(&["login", "who"]) },
            Role { title: "crew".to_string(), allowed_commands: strings(&["login", "ls"]) },
            Role { title: "guest".to_string(), allowed_commands: strings(&["kill"]) },
        ],
        vec![
            ("guest".to_string(), UserSettings { role: "guest".to_string(), pass: "".to_string() }),
            ("alice".to_string(), UserSettings { role: "crew".to_string(), pass: "pw1".to_string() }),
            ("bob".to_string(), UserSettings { role: "captain".to_string(), pass: "pw2".to_string() }),
        ],
    )
}

fn configuration_message(e: &Error) -> String {
    match &e.kind {
        ErrorKind::Configuration { message } => message.clone(),
        other => panic!("unexpected {:?}", other),
    }
}

#[test]
fn role_lookup_returns_first_entry() {
    let members = registry();
    let role = members.role("guest").unwrap();
    assert_eq!(role.title, "guest");
    assert_eq!(role.allowed_commands, strings(&["login", "who"]));
}

#[test]
fn role_lookup_of_unknown_title_is_configuration_error() {
    let e = registry().role("pirate").unwrap_err();
    assert_eq!(configuration_message(&e), "Error > No such a role > pirate");
}

#[test]
fn has_user_and_settings() {
    let members = registry();
    assert!(members.has_user("alice"));
    assert!(!members.has_user("carol"));
    let settings = members.settings_for("alice").unwrap();
    assert_eq!(settings.role, "crew");
    assert_eq!(settings.pass, "pw1");
    let e = members.settings_for("carol").unwrap_err();
    assert_eq!(configuration_message(&e), "Error > No such user > carol");
}

#[test]
fn role_for_composes_lookups() {
    let members = registry();
    let role = members.role_for("alice").unwrap();
    assert_eq!(role.title, "crew");
    assert_eq!(role.allowed_commands, strings(&["login", "ls"]));
    assert_eq!(configuration_message(&members.role_for("bob").unwrap_err()), "Error > No such a role > captain");
    assert_eq!(configuration_message(&members.role_for("carol").unwrap_err()), "Error > No such user > carol");
}

#[test]
fn role_allows_listed_commands_only() {
    let role = Role { title: "crew".to_string(), allowed_commands: strings(&["login", "ls"]) };
    assert!(role.allows(&"ls".to_string()));
    assert!(!role.allows(&"kill".to_string()));
}

#[test]
fn misconfiguration_prefixes_message() {
    let r: Result<u8, Error> = misconfiguration("broken");
    assert_eq!(configuration_message(&r.unwrap_err()), "Error > broken");
}

#[test]
fn would_block_is_recognised_only_for_would_block() {
    let wb = IoError { kind: IoErrorKind::WouldBlock, message: "wait".to_string() };
    let eof = IoError { kind: IoErrorKind::UnexpectedEof, message: "eof".to_string() };
    assert!(is_would_block_io_error(&wb));
    assert!(!is_would_block_io_error(&eof));
    assert!(is_would_block_io_result::<()>(&Err(wb.clone())));
    assert!(!is_would_block_io_result::<()>(&Err(eof.clone())));
    assert!(!is_would_block_io_result::<u8>(&Ok(1)));
    let e = Error::from(ErrorKind::Io { source: wb });
    assert!(is_would_block_error(&e));
    assert!(is_would_block_result::<()>(&Err(e)));
    let other = Error { kind: ErrorKind::NothingToRead };
    assert!(!is_would_block_error(&other));
    assert!(!is_would_block_result::<()>(&Err(other)));
    assert!(!is_would_block_result::<u8>(&Ok(3)));
    assert!(!is_would_block_error(&Error { kind: ErrorKind::Io { source: eof } }));
}
