use repo_archiver::error::Error;
use repo_archiver::session::{Session, TIMEOUT_SECONDS, USER_AGENT};
use repo_archiver::transport::is_success;

#[test]
fn session_carries_the_credential_as_a_token() {
    let session = match Session::new("ghp_abc123") {
        Ok(session) => session,
        Err(e) => panic!("unexpected {:?}", e),
    };
    assert_eq!(session.authorization(), "token ghp_abc123");
    assert_eq!(session.user_agent(), USER_AGENT);
    assert_eq!(session.user_agent(), "repo_archiver/0.1.0");
    assert_eq!(session.timeout_seconds(), 30);
    assert_eq!(TIMEOUT_SECONDS, 30);
}

#[test]
fn credential_with_a_line_break_is_a_configuration_error() {
    assert_eq!(Session::new("abc\ndef").err(), Some(Error::Configuration));
    assert_eq!(Session::new("abc\r").err(), Some(Error::Configuration));
    assert_eq!(Session::new("\u{0}").err(), Some(Error::Configuration));
    assert_eq!(Session::new("abc\u{7f}").err(), Some(Error::Configuration));
}

#[test]
fn credential_may_hold_tabs_spaces_and_other_scripts() {
    assert!(Session::new("a\tb c").is_ok());
    assert!(Session::new("gr\u{fc}n").is_ok());
    assert!(Session::new("").is_ok());
}

#[test]
fn success_is_the_two_hundreds() {
    assert!(!is_success(0));
    assert!(!is_success(199));
    assert!(is_success(200));
    assert!(is_success(250));
    assert!(is_success(299));
    assert!(!is_success(300));
    assert!(!is_success(404));
    assert!(!is_success(u16::MAX));
}
