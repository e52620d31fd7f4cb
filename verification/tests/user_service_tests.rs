use rust_exchange::error::AppError;
use rust_exchange::user_service::UserService;

fn bad_request(e: &AppError) -> String {
    match e {
        AppError::BadRequest(m) => m.clone(),
        AppError::NotFound(m) => panic!("unexpected NotFound: {}", m),
        AppError::Internal(m) => panic!("unexpected Internal: {}", m),
    }
}

fn not_found(e: &AppError) -> String {
    match e {
        AppError::NotFound(m) => m.clone(),
        AppError::BadRequest(m) => panic!("unexpected BadRequest: {}", m),
        AppError::Internal(m) => panic!("unexpected Internal: {}", m),
    }
}

#[test]
fn created_user_can_be_read_back() {
    let mut s = UserService::new();
    let u = s.create_user("alice".to_string(), "alice@example.com".to_string()).unwrap();
    assert_eq!(u.username, "alice");
    assert_eq!(u.email, "alice@example.com");
    let got = s.get_user(&u.id).unwrap();
    assert_eq!(got.id, u.id);
    assert_eq!(got.username, "alice");
}

#[test]
fn fresh_ids_are_hyphenated_uuids() {
    let mut s = UserService::new();
    let u = s.create_user("bob".to_string(), "b@x".to_string()).unwrap();
    assert_eq!(u.id.len(), 36);
    assert_eq!(u.id.as_bytes()[14], b'4');
    assert!(u.id.chars().all(|c| c == '-' || c.is_ascii_hexdigit() && !c.is_ascii_uppercase()));
    for p in [8, 13, 18, 23] {
        assert_eq!(u.id.as_bytes()[p], b'-');
    }
    let v = s.create_user("carol".to_string(), "c@x".to_string()).unwrap();
    assert_ne!(u.id, v.id);
}

#[test]
fn empty_username_is_refused() {
    let mut s = UserService::new();
    let e = s.create_user(String::new(), "a@x".to_string()).unwrap_err();
    assert_eq!(bad_request(&e), "Username cannot be empty");
    assert_eq!(s.get_users().unwrap().len(), 0);
}

#[test]
fn empty_email_is_refused() {
    let mut s = UserService::new();
    let e = s.create_user("alice".to_string(), String::new()).unwrap_err();
    assert_eq!(bad_request(&e), "Email cannot be empty");
}

#[test]
fn username_is_registered_once() {
    let mut s = UserService::new();
    s.create_user("alice".to_string(), "a@x".to_string()).unwrap();
    let e = s.create_user("alice".to_string(), "other@x".to_string()).unwrap_err();
    assert_eq!(bad_request(&e), "Username 'alice' already exists");
    assert_eq!(s.get_users().unwrap().len(), 1);
}

#[test]
fn create_with_given_id() {
    let mut s = UserService::new();
    let u = s.create_user_with_id("dave".to_string(), "d@x".to_string(), "id-1".to_string()).unwrap();
    assert_eq!(u.id, "id-1");
    assert_eq!(s.get_user("id-1").unwrap().username, "dave");
}

#[test]
fn same_id_replaces_user() {
    let mut s = UserService::new();
    s.create_user_with_id("dave".to_string(), "d@x".to_string(), "id-1".to_string()).unwrap();
    s.create_user_with_id("erin".to_string(), "e@x".to_string(), "id-1".to_string()).unwrap();
    let all = s.get_users().unwrap();
    assert_eq!(all.len(), 1);
    assert_eq!(all[0].username, "erin");
}

#[test]
fn unknown_user_is_not_found() {
    let s = UserService::new();
    let e = s.get_user("nobody").unwrap_err();
    assert_eq!(not_found(&e), "User not found: nobody");
}

#[test]
fn deleted_user_is_gone() {
    let mut s = UserService::new();
    let u = s.create_user("alice".to_string(), "a@x".to_string()).unwrap();
    s.delete_user(&u.id).unwrap();
    let e = s.get_user(&u.id).unwrap_err();
    assert_eq!(not_found(&e), format!("User not found: {}", u.id));
    assert_eq!(s.get_users().unwrap().len(), 0);
    // the name is free again
    s.create_user("alice".to_string(), "a2@x".to_string()).unwrap();
}

#[test]
fn deleting_unknown_user_fails() {
    let mut s = UserService::new();
    s.create_user_with_id("a".to_string(), "a@x".to_string(), "1".to_string()).unwrap();
    let e = s.delete_user("2").unwrap_err();
    assert_eq!(not_found(&e), "User not found: 2");
    assert_eq!(s.get_users().unwrap().len(), 1);
}

#[test]
fn listing_keeps_creation_order() {
    let mut s = UserService::new();
    for (i, n) in ["a", "b", "c", "d"].iter().enumerate() {
        s.create_user_with_id(n.to_string(), "m@x".to_string(), format!("{}", i)).unwrap();
    }
    s.delete_user("1").unwrap();
    let names: Vec<String> = s.get_users().unwrap().into_iter().map(|u| u.username).collect();
    assert_eq!(names, vec!["a", "c", "d"]);
}
