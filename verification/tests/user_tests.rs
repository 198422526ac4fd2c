use gouda::chat::{User, UserStatus};
use gouda::user::{user_sync_event, users_equal};

#[test]
fn user_equality() {
    let a = User { user_id: "@a".to_owned(), display_name: Some("A".to_owned()), ..Default::default() };
    let b = User { user_id: "@a".to_owned(), display_name: Some("A".to_owned()), ..Default::default() };
    assert!(users_equal(&a, &b));
    let c = User { status: Some(UserStatus { state: 1, status_message: None }), ..b };
    assert!(!users_equal(&a, &c));
}

#[test]
fn user_sync_events() {
    let fetched = User { user_id: "@a".to_owned(), display_name: Some("New".to_owned()), ..Default::default() };
    let cached = User { user_id: "@a".to_owned(), display_name: Some("Old".to_owned()), ..Default::default() };
    let event = user_sync_event(Some(cached), &fetched).unwrap();
    assert_eq!(event.user_id, "@a");
    assert_eq!(event.display_name, Some("New".to_owned()));
    assert_eq!(event.avatar_path, None);
    let same = User { user_id: "@a".to_owned(), display_name: Some("New".to_owned()), ..Default::default() };
    assert_eq!(user_sync_event(Some(same), &fetched), None);
    let event = user_sync_event(None, &fetched).unwrap();
    assert_eq!(event.display_name, Some("New".to_owned()));
}
