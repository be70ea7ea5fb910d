use lastfm_edit::session::ClientSession;
use lastfm_edit::session_persistence::{SessionManager, SessionPersistence};
use lastfm_edit::types::LastFmEditSession;

#[test]
fn session_test_session_validity() {
    let valid_session = ClientSession::new(
        "testuser".to_string(),
        vec!["sessionid=.eJy1234567890abcdefghijklmnopqrstuvwxyzABCDEFGHIJKLMNOPQRSTUVWXYZ".to_string()],
        Some("csrf_token_123".to_string()),
        "https://www.last.fm".to_string(),
    );
    assert!(valid_session.is_valid());

    let invalid_session = ClientSession::new("".to_string(), vec![], None, "https://www.last.fm".to_string());
    assert!(!invalid_session.is_valid());
}

#[test]
fn types_test_session_validity() {
    let valid_session = LastFmEditSession::new(
        "testuser".to_string(),
        vec!["sessionid=.eJy1234567890abcdefghijklmnopqrstuvwxyzABCDEFGHIJKLMNOPQRSTUVWXYZ1234567890".to_string()],
        Some("csrf_token_123".to_string()),
        "https://www.last.fm".to_string(),
    );
    assert!(valid_session.is_valid());

    let invalid_session = LastFmEditSession::new("".to_string(), vec![], None, "https://www.last.fm".to_string());
    assert!(!invalid_session.is_valid());
}

#[test]
fn test_session_path_generation() {
    let path = SessionPersistence::get_session_path("testuser").unwrap();
    assert!(path.to_string_lossy().contains("lastfm-edit/users/testuser/session.json"));
}

#[test]
fn session_cookie_must_be_long_enough() {
    let short = LastFmEditSession::new(
        "testuser".to_string(),
        vec!["sessionid=.short".to_string()],
        Some("token".to_string()),
        "https://www.last.fm".to_string(),
    );
    assert!(!short.is_valid());
    let no_token = LastFmEditSession::new(
        "testuser".to_string(),
        vec!["sessionid=.eJy1234567890abcdefghijklmnopqrstuvwxyzABCDEFGHIJKLMNOPQRSTUVWXYZ".to_string()],
        None,
        "https://www.last.fm".to_string(),
    );
    assert!(!no_token.is_valid());
}

#[test]
fn session_manager_paths() {
    let m = SessionManager::new("my-app");
    assert_eq!(m.app_name(), "my-app");
    assert_eq!(
        m.session_path_components("bob"),
        vec!["my-app".to_string(), "users".to_string(), "bob".to_string(), "session.json".to_string()]
    );
    let path = m.get_session_path("bob").unwrap();
    assert!(path.to_string_lossy().ends_with("my-app/users/bob/session.json"));
}

#[test]
fn session_paths_under_a_given_data_dir() {
    let m = SessionManager::new("my-app");
    let base = std::path::PathBuf::from("/data");
    let path = m.session_path_under(Some(base.clone()), "bob").unwrap();
    assert_eq!(path, std::path::PathBuf::from("/data/my-app/users/bob/session.json"));
    let users = m.users_dir_under(Some(base)).unwrap();
    assert_eq!(users, std::path::PathBuf::from("/data/my-app/users"));
    match m.session_path_under(None, "bob") {
        Err(e) => assert_eq!(e.to_string(), "HTTP error: Cannot determine XDG data directory"),
        Ok(_) => panic!("a path without a data directory"),
    }
    assert!(m.users_dir_under(None).is_err());
}
