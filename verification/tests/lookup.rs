use oauth_session::lookup::{is_logged_in, session_record};
use oauth_session::session::{SessionStore, TokenRecord};

fn store_with(id: &str) -> SessionStore {
    let mut store = SessionStore::new();
    let record = TokenRecord {
        access_token: "secret".to_string(),
        refresh_token: None,
        expires_in: 60,
        token_type: "Bearer".to_string(),
    };
    store.try_insert(id.to_string(), record).unwrap();
    store
}

#[test]
fn request_without_cookie_header_is_not_logged_in() {
    let store = store_with("live");
    assert!(!is_logged_in(&store, None));
    assert_eq!(session_record(&store, None), None);
}

#[test]
fn header_without_session_cookie_is_not_logged_in() {
    let store = store_with("live");
    assert!(!is_logged_in(&store, Some("theme=dark; lang=en")));
    assert!(!is_logged_in(&store, Some("")));
    assert_eq!(session_record(&store, Some("theme=dark")), None);
}

#[test]
fn unknown_session_is_not_logged_in() {
    let store = store_with("live");
    assert!(!is_logged_in(&store, Some("session_id=dead")));
    assert!(!is_logged_in(&store, Some("session_id=")));
    assert_eq!(session_record(&store, Some("session_id=dead")), None);
}

#[test]
fn live_session_is_logged_in() {
    let store = store_with("live");
    assert!(is_logged_in(&store, Some("session_id=live")));
    assert!(is_logged_in(&store, Some("theme=dark; session_id=live; lang=en")));
    let record = session_record(&store, Some("a=b; session_id=live")).unwrap();
    assert_eq!(record.access_token, "secret");
    assert_eq!(record.expires_in, 60);
}

#[test]
fn only_the_first_session_cookie_counts() {
    let store = store_with("live");
    assert!(!is_logged_in(&store, Some("session_id=dead; session_id=live")));
    assert!(is_logged_in(&store, Some("session_id=live; session_id=dead")));
}
