use storefront::user::session_store::{SessionStore, RANDOM_DRAWS};
use storefront::user::user_service::UserInfo;
use storefront::utils::clock::Timestamp;

fn session(username: &str, secs: i64) -> UserInfo {
    UserInfo {
        username: username.to_string(),
        email: format!("{}@x.com", username),
        last_login: Some(Timestamp { secs, nanos: 5 }),
    }
}

#[test]
fn new_session_store_is_empty() {
    let store = SessionStore::new();
    assert_eq!(store.len(), 0);
    assert!(!store.is_issued(0));
    assert!(store.session(0).is_none());
}

#[test]
fn record_puts_a_session_under_a_free_token() {
    let mut store = SessionStore::new();
    assert!(store.record(17, session("alice", 100)).is_none());
    assert_eq!(store.len(), 1);
    assert!(store.is_issued(17));
    let kept = store.session(17).unwrap();
    assert_eq!(kept.username, "alice");
    assert_eq!(kept.email, "alice@x.com");
    assert_eq!(kept.last_login, Some(Timestamp { secs: 100, nanos: 5 }));
}

#[test]
fn record_rejects_a_taken_token_and_hands_the_session_back() {
    let mut store = SessionStore::new();
    assert!(store.record(17, session("alice", 100)).is_none());
    let rejected = store.record(17, session("bob", 200)).unwrap();
    assert_eq!(rejected.username, "bob");
    assert_eq!(store.len(), 1);
    assert_eq!(store.session(17).unwrap().username, "alice");
}

#[test]
fn first_free_from_skips_taken_tokens() {
    let mut store = SessionStore::new();
    assert_eq!(store.first_free_from(40), 40);
    for token in [40, 41, 42, 44] {
        assert!(store.record(token, session("alice", 1)).is_none());
    }
    assert_eq!(store.first_free_from(40), 43);
    assert_eq!(store.first_free_from(44), 45);
    assert_eq!(store.first_free_from(39), 39);
}

#[test]
fn first_free_from_goes_round_after_the_greatest_token() {
    let mut store = SessionStore::new();
    for token in [u128::MAX - 1, u128::MAX, 0, 1] {
        assert!(store.record(token, session("alice", 1)).is_none());
    }
    assert_eq!(store.first_free_from(u128::MAX - 1), 2);
    assert_eq!(store.first_free_from(u128::MAX), 2);
}

#[test]
fn issue_hands_out_tokens_that_were_never_handed_out() {
    let mut store = SessionStore::new();
    let mut seen = Vec::new();
    for k in 0..50 {
        let token = store.issue(session("alice", k));
        assert!(!seen.contains(&token));
        assert!(store.is_issued(token));
        assert_eq!(store.session(token).unwrap().last_login, Some(Timestamp { secs: k, nanos: 5 }));
        seen.push(token);
    }
    assert_eq!(store.len(), 50);
}

#[test]
fn issue_keeps_earlier_sessions() {
    let mut store = SessionStore::new();
    let first = store.issue(session("alice", 1));
    let second = store.issue(session("bob", 2));
    assert_ne!(first, second);
    assert_eq!(store.session(first).unwrap().username, "alice");
    assert_eq!(store.session(second).unwrap().username, "bob");
}

#[test]
fn several_random_tokens_are_drawn() {
    assert_eq!(RANDOM_DRAWS, 8);
}
