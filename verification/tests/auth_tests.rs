use hm_pi::auth::{verify_credentials, AuthLevel, AuthState, UserRecord};
use hm_pi::file_io::FileIoError;

fn user(key: &str, name: &str, password: &str, level: AuthLevel) -> (String, UserRecord) {
    (
        key.to_string(),
        UserRecord { username: name.to_string(), password: password.to_string(), level },
    )
}

fn users() -> Result<Vec<(String, UserRecord)>, FileIoError> {
    Ok(vec![
        user("anna", "anna", "pw1", AuthLevel::Manager),
        user("bob", "Bob", "pw2", AuthLevel::Admin),
        user("carl", "carl", "pw3", AuthLevel::Operator),
    ])
}

#[test]
fn labels() {
    assert_eq!(AuthLevel::Operator.label(), "Operator");
    assert_eq!(AuthLevel::Manager.label(), "Manager");
    assert_eq!(AuthLevel::Admin.label(), "Admin");
    assert!(AuthLevel::Operator < AuthLevel::Manager && AuthLevel::Manager < AuthLevel::Admin);
}

#[test]
fn auth_state_accessors() {
    let s = AuthState::default();
    assert_eq!(s.level(), AuthLevel::Operator);
    assert_eq!(s.username(), None);
    let m = AuthState::Manager { username: "anna".to_string() };
    assert_eq!(m.level(), AuthLevel::Manager);
    assert_eq!(m.username(), Some("anna"));
    let a = AuthState::Admin { username: "root".to_string() };
    assert_eq!(a.level(), AuthLevel::Admin);
    assert_eq!(a.username(), Some("root"));
}

#[test]
fn user_record_levels() {
    let (_, m) = user("m", "m", "", AuthLevel::Manager);
    assert!(m.is_manager() && !m.is_admin());
    let (_, a) = user("a", "a", "", AuthLevel::Admin);
    assert!(a.is_admin() && !a.is_manager());
    let (_, o) = user("o", "o", "", AuthLevel::Operator);
    assert!(!o.is_admin() && !o.is_manager());
}

#[test]
fn service_login_is_always_accepted() {
    let broken: Result<Vec<(String, UserRecord)>, FileIoError> =
        Err(FileIoError::Io { path: "/u".to_string(), source: "denied".to_string() });
    let s = verify_credentials("MITUSA", "admin", &broken).unwrap();
    assert_eq!(s.level(), AuthLevel::Admin);
    assert_eq!(s.username(), Some("MITUSA"));
}

#[test]
fn stored_users_log_in_at_their_level() {
    let u = users();
    let s = verify_credentials("anna", "pw1", &u).unwrap();
    assert_eq!(s.level(), AuthLevel::Manager);
    assert_eq!(s.username(), Some("anna"));
    // The state carries the record's user name, not the key it is stored under.
    let s = verify_credentials("bob", "pw2", &u).unwrap();
    assert_eq!(s.level(), AuthLevel::Admin);
    assert_eq!(s.username(), Some("Bob"));
    let s = verify_credentials("carl", "pw3", &u).unwrap();
    assert_eq!(s.level(), AuthLevel::Operator);
    assert_eq!(s.username(), None);
}

#[test]
fn wrong_logins_are_refused() {
    let u = users();
    assert_eq!(
        verify_credentials("anna", "wrong", &u).unwrap_err(),
        "Invalid credentials for user 'anna'"
    );
    assert_eq!(
        verify_credentials("nobody", "pw1", &u).unwrap_err(),
        "Invalid credentials for user 'nobody'"
    );
    assert_eq!(
        verify_credentials("MITUSA", "wrong", &u).unwrap_err(),
        "Invalid credentials for user 'MITUSA'"
    );
}

#[test]
fn a_missing_user_file_is_an_empty_list() {
    let missing: Result<Vec<(String, UserRecord)>, FileIoError> =
        Err(FileIoError::NotFound { path: "/c/users.json".to_string() });
    assert_eq!(
        verify_credentials("anna", "pw1", &missing).unwrap_err(),
        "Invalid credentials for user 'anna'"
    );
}

#[test]
fn other_load_failures_are_reported() {
    let broken: Result<Vec<(String, UserRecord)>, FileIoError> =
        Err(FileIoError::Serde { path: "/c/users.json".to_string(), source: "eof".to_string() });
    assert_eq!(
        verify_credentials("anna", "pw1", &broken).unwrap_err(),
        "Failed to parse JSON at /c/users.json: eof"
    );
}
