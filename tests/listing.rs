use flexauth::models::UserResponse;
use flexauth::session::{Session, SessionResponse};
use flexauth::user::User;

fn s(id: &str, created_at: i64) -> SessionResponse {
    SessionResponse {
        uid: "u".to_string(),
        session_id: id.to_string(),
        email: "a@b.co".to_string(),
        user_agent: "ua/1".to_string(),
        is_revoked: false,
        created_at,
        updated_at: created_at,
    }
}

fn u(id: &str, created_at: Option<i64>) -> UserResponse {
    UserResponse {
        uid: id.to_string(),
        name: "n".to_string(),
        role: "user".to_string(),
        email: "e".to_string(),
        email_verified: false,
        is_active: true,
        blocked_until: None,
        created_at,
        updated_at: None,
    }
}

#[test]
fn sessions_sort_ascending_by_creation_and_stably() {
    let v = vec![s("c", 30), s("a", 10), s("b1", 20), s("d", 40), s("b2", 20)];
    let r = Session::sort_by_created(v);
    let ids: Vec<&str> = r.iter().map(|x| x.session_id.as_str()).collect();
    assert_eq!(ids, vec!["a", "b1", "b2", "c", "d"]);
    assert!(Session::sort_by_created(Vec::new()).is_empty());
}

#[test]
fn users_sort_with_unknown_times_first() {
    let v = vec![u("x", Some(5)), u("y", None), u("z", Some(1))];
    let r = User::sort_by_created(v);
    let ids: Vec<&str> = r.iter().map(|x| x.uid.as_str()).collect();
    assert_eq!(ids, vec!["y", "z", "x"]);
}

#[test]
fn most_recent_users_newest_first() {
    let v = vec![u("a", Some(1)), u("b", Some(3)), u("c", Some(2)), u("d", Some(4))];
    let r = User::most_recent(v.clone(), 2);
    let ids: Vec<&str> = r.iter().map(|x| x.uid.as_str()).collect();
    assert_eq!(ids, vec!["d", "b"]);
    assert_eq!(User::most_recent(v.clone(), 10).len(), 4);
    assert_eq!(User::most_recent(v.clone(), -1).len(), 4);
    assert!(User::most_recent(v, 0).is_empty());
}
