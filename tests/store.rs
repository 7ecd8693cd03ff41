use copilot_auth::store::{CopilotTokenStore, LoadedToken, StoreError};
use copilot_auth::token::CopilotToken;

#[test]
fn override_directory_is_used() {
    let s = CopilotTokenStore::new_in(Some("/tmp/codex".to_string()), Some("/home/u".to_string())).unwrap();
    assert_eq!(s.home(), "/tmp/codex");
    assert_eq!(s.token_file(), "/tmp/codex/copilot_token.json");
    let s = CopilotTokenStore::new(Some("/srv/c".to_string())).unwrap();
    assert_eq!(s.token_file(), "/srv/c/copilot_token.json");
}

#[test]
fn home_directory_is_the_fallback() {
    let s = CopilotTokenStore::new_in(None, Some("/home/u".to_string())).unwrap();
    assert_eq!(s.home(), "/home/u/.codex");
    assert_eq!(s.token_file(), "/home/u/.codex/copilot_token.json");
}

#[test]
fn no_directory_is_an_error() {
    let e = CopilotTokenStore::new_in(None, None).unwrap_err();
    assert_eq!(e, StoreError::NoHomeDirectory);
    assert_eq!(e.message(), "Could not find home directory");
}

#[test]
fn expired_credential_is_evicted() {
    let t = CopilotToken::from_raw_token("tid=a;exp=100");
    assert!(matches!(CopilotTokenStore::check_loaded(t.clone(), 100), LoadedToken::Expired));
    match CopilotTokenStore::check_loaded(t, 99) {
        LoadedToken::Valid(v) => assert_eq!(v.token, "tid=a;exp=100"),
        LoadedToken::Expired => panic!("not expired yet"),
    }
}

#[test]
fn expired_credential_is_never_selected() {
    let t = CopilotToken::from_raw_token("tid=a;exp=100");
    assert_eq!(CopilotTokenStore::select_valid_token(Some(t.clone()), None, 200), None);
    assert_eq!(
        CopilotTokenStore::select_valid_token(Some(t), Some("env".to_string()), 200),
        Some("env".to_string())
    );
}

#[test]
fn valid_credential_beats_environment() {
    let t = CopilotToken::from_raw_token("plain");
    assert_eq!(
        CopilotTokenStore::select_valid_token(Some(t), Some("env".to_string()), 200),
        Some("plain".to_string())
    );
}

#[test]
fn environment_used_without_stored_file() {
    assert_eq!(
        CopilotTokenStore::select_valid_token(None, Some("from-env".to_string()), 0),
        Some("from-env".to_string())
    );
    assert_eq!(CopilotTokenStore::select_valid_token(None, None, 0), None);
}

#[test]
fn platform_home_gives_codex_directory() {
    match CopilotTokenStore::new(None) {
        Ok(s) => {
            assert!(s.home().ends_with(".codex"));
            assert!(s.token_file().ends_with(".codex/copilot_token.json"));
        }
        Err(e) => assert_eq!(e, StoreError::NoHomeDirectory),
    }
}
