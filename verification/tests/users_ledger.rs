use groupbuy_core::errors::AppError;
use groupbuy_core::records::{
    ClearSessionRequest, CreateUser, PlatformQuery, SetSessionState, UpdateUser,
};
use groupbuy_core::store::Store;

fn new_user(puid: &str) -> CreateUser {
    CreateUser {
        platform: None,
        platform_user_id: puid.to_string(),
        username: None,
        first_name: "Anna".to_string(),
        last_name: None,
        phone: None,
        email: None,
        role: None,
        language_code: None,
    }
}

#[test]
fn create_user_fills_defaults() {
    let mut s = Store::new();
    let u = s.create_user(&new_user("555"), 100).unwrap();
    assert_eq!(u.platform, "telegram");
    assert_eq!(u.role, "buyer");
    assert_eq!(u.role_display, "Buyer");
    assert_eq!(u.language_code, "ru");
    assert_eq!(u.balance, 0);
    assert_eq!(u.username, "");
    assert_eq!(u.full_name, "Anna");
    assert!(u.is_active);
    assert!(!u.is_verified);
}

#[test]
fn create_user_requires_platform_user_id() {
    let mut s = Store::new();
    let e = s.create_user(&new_user(""), 0).unwrap_err();
    assert_eq!(e, AppError::MissingPlatformUserId);
}

#[test]
fn phone_is_normalized_on_create() {
    let mut s = Store::new();
    let mut req = new_user("1");
    req.phone = Some("79991234567".to_string());
    assert_eq!(s.create_user(&req, 0).unwrap().phone, "+79991234567");

    let mut req2 = new_user("2");
    req2.phone = Some("+79991234567".to_string());
    assert_eq!(s.create_user(&req2, 0).unwrap().phone, "+79991234567");

    let mut req3 = new_user("3");
    req3.phone = Some("".to_string());
    assert_eq!(s.create_user(&req3, 0).unwrap().phone, "");
}

#[test]
fn duplicate_platform_pair_is_conflict() {
    let mut s = Store::new();
    s.create_user(&new_user("777"), 0).unwrap();
    let e = s.create_user(&new_user("777"), 1).unwrap_err();
    assert_eq!(e, AppError::UserAlreadyExists);
    assert!(e.is_conflict());
    assert_eq!(e.status_code(), 400);
    assert_eq!(s.users.len(), 1);

    // a different platform with the same platform user id is a new user
    let mut other = new_user("777");
    other.platform = Some("web".to_string());
    assert!(s.create_user(&other, 2).is_ok());
}

#[test]
fn get_update_delete_user_roundtrip() {
    let mut s = Store::new();
    let u = s.create_user(&new_user("9"), 0).unwrap();
    assert_eq!(s.get_user(u.id).unwrap().first_name, "Anna");

    // empty update is a no-op that returns the current state
    let empty = UpdateUser { first_name: None, last_name: None, phone: None, email: None, role: None };
    let same = s.update_user(u.id, &empty, 50).unwrap();
    assert_eq!(same.updated_at, 0);

    let upd = UpdateUser {
        first_name: Some("Ira".to_string()),
        last_name: Some("Petrova".to_string()),
        phone: None,
        email: None,
        role: Some("organizer".to_string()),
    };
    let changed = s.update_user(u.id, &upd, 60).unwrap();
    assert_eq!(changed.first_name, "Ira");
    assert_eq!(changed.full_name, "Ira Petrova");
    assert_eq!(changed.role, "organizer");
    assert_eq!(changed.role_display, "Organizer");
    assert_eq!(changed.updated_at, 60);

    s.delete_user(u.id).unwrap();
    assert_eq!(s.get_user(u.id).unwrap_err(), AppError::NotFound);
    assert_eq!(s.delete_user(u.id).unwrap_err(), AppError::NotFound);
}

#[test]
fn lookup_by_platform_defaults_and_requires_key() {
    let mut s = Store::new();
    s.create_user(&new_user("abc"), 0).unwrap();
    let q = PlatformQuery { platform: None, platform_user_id: Some("abc".to_string()) };
    assert_eq!(s.get_user_by_platform(&q).unwrap().platform_user_id, "abc");
    assert_eq!(s.check_user_exists(&q).unwrap(), true);

    let missing = PlatformQuery { platform: None, platform_user_id: Some("zzz".to_string()) };
    assert_eq!(s.get_user_by_platform(&missing).unwrap_err(), AppError::NotFound);
    assert_eq!(s.check_user_exists(&missing).unwrap(), false);

    let bad = PlatformQuery { platform: None, platform_user_id: None };
    assert_eq!(s.get_user_by_platform(&bad).unwrap_err(), AppError::MissingPlatformUserId);
    assert_eq!(s.check_user_exists(&bad).unwrap_err(), AppError::MissingPlatformUserId);
}

#[test]
fn balance_updates_compose() {
    let mut s = Store::new();
    let u = s.create_user(&new_user("bal"), 0).unwrap();
    let before = s.get_user_balance(u.id).unwrap().balance;
    s.update_user_balance(u.id, 100, 1).unwrap();
    let after = s.update_user_balance(u.id, -30, 2).unwrap();
    assert_eq!(after, before + 70);
    assert_eq!(s.get_user_balance(u.id).unwrap().balance, before + 70);
}

#[test]
fn update_balance_missing_user_is_not_found() {
    let mut s = Store::new();
    assert_eq!(s.update_user_balance(4, 10, 0).unwrap_err(), AppError::NotFound);
}

#[test]
fn balance_view_aggregates_journal() {
    let mut s = Store::new();
    let u = s.create_user(&new_user("j"), 0).unwrap();
    s.record_transaction(u.id, "deposit".to_string(), 500, 500, None, None, "".to_string(), 1)
        .unwrap();
    s.record_transaction(u.id, "deposit".to_string(), 200, 700, None, None, "".to_string(), 2)
        .unwrap();
    s.record_transaction(u.id, "spend".to_string(), -150, 550, None, None, "".to_string(), 3)
        .unwrap();
    // another user's entries never count
    let v = s.create_user(&new_user("k"), 4).unwrap();
    s.record_transaction(v.id, "deposit".to_string(), 999, 999, None, None, "".to_string(), 5)
        .unwrap();

    let b = s.get_user_balance(u.id).unwrap();
    assert_eq!(b.total_deposited, 700);
    assert_eq!(b.total_spent, 150);
    // the cached balance is authoritative and may drift from the journal
    assert_eq!(b.balance, 0);
    assert_eq!(b.available, b.balance);
}

#[test]
fn role_view_labels_known_roles() {
    let mut s = Store::new();
    let mut req = new_user("r");
    req.role = Some("supplier".to_string());
    let u = s.create_user(&req, 0).unwrap();
    let r = s.get_user_role(u.id).unwrap();
    assert_eq!(r.role, "supplier");
    assert_eq!(r.role_display, "Supplier");

    let mut req2 = new_user("r2");
    req2.role = Some("admin".to_string());
    let u2 = s.create_user(&req2, 0).unwrap();
    assert_eq!(s.get_user_role(u2.id).unwrap().role_display, "admin");
}

#[test]
fn list_users_newest_first() {
    let mut s = Store::new();
    s.create_user(&new_user("one"), 10).unwrap();
    s.create_user(&new_user("two"), 20).unwrap();
    s.create_user(&new_user("three"), 30).unwrap();
    let users = s.list_users();
    assert_eq!(users.len(), 3);
    assert_eq!(users[0].platform_user_id, "three");
    assert_eq!(users[1].platform_user_id, "two");
    assert_eq!(users[2].platform_user_id, "one");
}

#[test]
fn session_upsert_keeps_one_row_per_user() {
    let mut s = Store::new();
    let set1 = SetSessionState {
        user_id: 7,
        dialog_type: Some("order".to_string()),
        dialog_state: Some("step1".to_string()),
        dialog_data: None,
    };
    let row1 = s.set_session_state(&set1, 10).unwrap();
    assert_eq!(row1.dialog_type, "order");
    assert_eq!(row1.dialog_data, "{}");
    assert_eq!(row1.created_at, 10);

    let set2 = SetSessionState {
        user_id: 7,
        dialog_type: None,
        dialog_state: Some("step2".to_string()),
        dialog_data: Some("{\"qty\":3}".to_string()),
    };
    let row2 = s.set_session_state(&set2, 20).unwrap();
    assert_eq!(row2.id, row1.id);
    assert_eq!(row2.dialog_type, "");
    assert_eq!(row2.dialog_state, "step2");
    assert_eq!(row2.dialog_data, "{\"qty\":3}");
    assert_eq!(row2.created_at, 10);
    assert_eq!(row2.updated_at, 20);
    assert_eq!(s.sessions.len(), 1);

    let req = ClearSessionRequest { user_id: 7 };
    s.clear_session_state(&req).unwrap();
    assert_eq!(s.sessions.len(), 0);
    // clearing an absent row is still success
    s.clear_session_state(&req).unwrap();
}

#[test]
fn balance_view_of_empty_journal_is_zero() {
    let mut s = Store::new();
    let u = s.create_user(&new_user("empty"), 0).unwrap();
    let b = s.get_user_balance(u.id).unwrap();
    assert_eq!(b.total_deposited, 0);
    assert_eq!(b.total_spent, 0);
    assert_eq!(s.get_user_balance(99).unwrap_err(), AppError::NotFound);
}
