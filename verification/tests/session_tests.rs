use weixin::model::{LoginStatus, UserType};
use weixin::session::{find_session_id, SessionContext};

fn cookies(id: &str) -> Option<Vec<(String, String)>> {
    Some(vec![("other".to_string(), "1".to_string()), ("sessionid".to_string(), id.to_string())])
}

fn login(openid: &str) -> LoginStatus {
    let mut l = LoginStatus::default();
    l.openid = openid.to_string();
    l.user_type = UserType::Passenger;
    l
}

#[test]
fn session_id_cookie() {
    let c = vec![
        ("a".to_string(), "1".to_string()),
        ("sessionid".to_string(), "s1".to_string()),
        ("sessionid".to_string(), "s2".to_string()),
    ];
    assert_eq!(find_session_id(&c).map(|s| s.as_str()), Some("s1"));
    assert_eq!(find_session_id(&vec![("a".to_string(), "1".to_string())]), None);
}

#[test]
fn no_session_without_cookies() {
    let sc = SessionContext::new();
    assert!(sc.get_session(&None).is_none());
    assert!(sc.get_login(&None).is_none());
    assert!(sc.get_session(&cookies("unknown")).is_none());
}

#[test]
fn stored_login_is_read_back() {
    let mut sc = SessionContext::new();
    let id = sc.set_login(&None, login("u1")).expect("a new session");
    assert_eq!(id.len(), 32);
    let read = sc.get_login(&cookies(&id)).unwrap();
    assert_eq!(read.openid, "u1");
    assert_eq!(read.user_type, UserType::Passenger);
    assert!(sc.set_login(&cookies(&id), login("u2")).is_none());
    assert_eq!(sc.get_login(&cookies(&id)).unwrap().openid, "u2");
}

#[test]
fn sessions_are_kept_apart() {
    let mut sc = SessionContext::new();
    let a = sc.set_login(&None, login("a")).unwrap();
    let b = sc.set_login(&cookies("stale"), login("b")).unwrap();
    assert_ne!(a, b);
    assert_eq!(sc.get_login(&cookies(&a)).unwrap().openid, "a");
    assert_eq!(sc.get_login(&cookies(&b)).unwrap().openid, "b");
}

#[test]
fn every_request_gets_a_session() {
    let mut sc = SessionContext::new();
    let id = sc.ensure_session(&None).expect("a new session");
    assert!(sc.get_session(&cookies(&id)).is_some());
    assert!(sc.get_login(&cookies(&id)).is_none());
    assert!(sc.ensure_session(&cookies(&id)).is_none());
    let other = sc.ensure_session(&cookies("gone")).expect("a new session");
    assert_ne!(other, id);
    let fresh = sc.new_session();
    assert_eq!(sc.get_session(&cookies(&fresh)).unwrap().expire, 0);
}
