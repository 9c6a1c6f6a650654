use groupbuy_core::errors::AppError;
use groupbuy_core::records::{CreateProcurement, JoinProcurement, ProcurementQuery};
use groupbuy_core::store::Store;

const DAY_MS: i64 = 86_400_000;

fn base_create(title: &str, city: &str, status: &str, target: i64) -> CreateProcurement {
    CreateProcurement {
        title: title.to_string(),
        description: "Bulk order".to_string(),
        category_id: None,
        organizer_id: 1,
        city: city.to_string(),
        delivery_address: None,
        target_amount: target,
        stop_at_amount: None,
        unit: None,
        price_per_unit: None,
        status: Some(status.to_string()),
        deadline: 10 * DAY_MS,
        payment_deadline: None,
        image_url: None,
    }
}

fn join_req(user_id: i32, amount: i64) -> JoinProcurement {
    JoinProcurement { user_id: Some(user_id), amount, quantity: None, notes: None }
}

#[test]
fn create_fills_defaults_and_starts_empty() {
    let mut s = Store::new();
    let p = s.create_procurement(&base_create("Rice", "Kazan", "draft", 20000), 1000).unwrap();
    assert_eq!(p.id, 1);
    assert_eq!(p.current_amount, 0);
    assert_eq!(p.unit, "units");
    assert_eq!(p.delivery_address, "");
    assert_eq!(p.image_url, "");
    assert_eq!(p.status, "draft");
    assert!(!p.is_featured);
    assert_eq!(p.created_at, 1000);
}

#[test]
fn create_rejects_blank_title_and_description_and_target() {
    let mut s = Store::new();
    let mut req = base_create("   ", "Kazan", "draft", 100);
    assert_eq!(s.create_procurement(&req, 0).unwrap_err(), AppError::EmptyTitle);
    req.title = "Tea".to_string();
    req.description = " \t ".to_string();
    assert_eq!(s.create_procurement(&req, 0).unwrap_err(), AppError::EmptyDescription);
    req.description = "Loose leaf".to_string();
    req.target_amount = 0;
    assert_eq!(s.create_procurement(&req, 0).unwrap_err(), AppError::NonPositiveTarget);
    assert!(s.procurements.is_empty());
}

#[test]
fn get_missing_procurement_is_not_found() {
    let s = Store::new();
    assert_eq!(s.get_procurement(7, 0).unwrap_err(), AppError::NotFound);
}

#[test]
fn join_accumulates_exact_sum_of_active_participants() {
    let mut s = Store::new();
    let p = s.create_procurement(&base_create("Flour", "Omsk", "active", 100_000), 0).unwrap();
    s.join_procurement(p.id, &join_req(10, 2_500), 10).unwrap();
    s.join_procurement(p.id, &join_req(11, 4_000), 20).unwrap();
    s.join_procurement(p.id, &join_req(12, 999), 30).unwrap();
    let got = s.get_procurement(p.id, 40).unwrap();
    assert_eq!(got.current_amount, 7_499);
    assert_eq!(got.participant_count, 3);
    assert_eq!(got.updated_at, 30);
}

#[test]
fn join_requires_user_id() {
    let mut s = Store::new();
    let p = s.create_procurement(&base_create("Flour", "Omsk", "active", 1000), 0).unwrap();
    let req = JoinProcurement { user_id: None, amount: 10, quantity: None, notes: None };
    assert_eq!(s.join_procurement(p.id, &req, 1).unwrap_err(), AppError::MissingUserId);
}

#[test]
fn join_missing_procurement_is_not_found() {
    let mut s = Store::new();
    assert_eq!(s.join_procurement(5, &join_req(1, 10), 0).unwrap_err(), AppError::NotFound);
}

#[test]
fn join_refused_unless_status_active() {
    let mut s = Store::new();
    let p = s.create_procurement(&base_create("Flour", "Omsk", "draft", 1000), 0).unwrap();
    assert_eq!(s.join_procurement(p.id, &join_req(1, 10), 1).unwrap_err(), AppError::ProcurementNotActive);
}

#[test]
fn duplicate_join_is_conflict_and_count_unchanged() {
    let mut s = Store::new();
    let p = s.create_procurement(&base_create("Flour", "Omsk", "active", 1000), 0).unwrap();
    s.join_procurement(p.id, &join_req(42, 100), 1).unwrap();
    let before = s.participants.len();
    let e = s.join_procurement(p.id, &join_req(42, 50), 2).unwrap_err();
    assert_eq!(e, AppError::AlreadyJoined);
    assert!(e.is_conflict());
    assert_eq!(e.status_code(), 400);
    assert_eq!(s.participants.len(), before);
    assert_eq!(s.get_procurement(p.id, 3).unwrap().current_amount, 100);
    assert_eq!(s.get_procurement(p.id, 3).unwrap().participant_count, 1);
}

#[test]
fn join_defaults_quantity_to_one_and_notes_to_empty() {
    let mut s = Store::new();
    let p = s.create_procurement(&base_create("Flour", "Omsk", "active", 1000), 0).unwrap();
    let row = s.join_procurement(p.id, &join_req(9, 77), 5).unwrap();
    assert_eq!(row.quantity, 1);
    assert_eq!(row.notes, "");
    assert!(row.is_active);
    assert_eq!(row.amount, 77);
}

#[test]
fn join_overflow_is_rejected_and_store_unchanged() {
    let mut s = Store::new();
    let p = s.create_procurement(&base_create("Gold", "Perm", "active", 10), 0).unwrap();
    s.join_procurement(p.id, &join_req(1, i64::MAX), 1).unwrap();
    let e = s.join_procurement(p.id, &join_req(2, 1), 2).unwrap_err();
    assert_eq!(e, AppError::AmountOutOfRange);
    assert_eq!(s.get_procurement(p.id, 3).unwrap().current_amount, i64::MAX);
    assert_eq!(s.get_procurement(p.id, 3).unwrap().participant_count, 1);
}

#[test]
fn leave_deactivates_and_subtracts() {
    let mut s = Store::new();
    let p = s.create_procurement(&base_create("Flour", "Omsk", "active", 1000), 0).unwrap();
    s.join_procurement(p.id, &join_req(1, 300), 1).unwrap();
    s.join_procurement(p.id, &join_req(2, 200), 2).unwrap();
    s.leave_procurement(p.id, 1, 3).unwrap();
    let got = s.get_procurement(p.id, 4).unwrap();
    assert_eq!(got.current_amount, 200);
    assert_eq!(got.participant_count, 1);
    // leaving twice keeps the aggregate unchanged
    s.leave_procurement(p.id, 1, 5).unwrap();
    assert_eq!(s.get_procurement(p.id, 6).unwrap().current_amount, 200);
    // the row itself stays
    assert_eq!(s.participants.len(), 2);
}

#[test]
fn leave_unknown_user_is_not_found() {
    let mut s = Store::new();
    let p = s.create_procurement(&base_create("Flour", "Omsk", "active", 1000), 0).unwrap();
    assert_eq!(s.leave_procurement(p.id, 99, 1).unwrap_err(), AppError::NotFound);
    assert_eq!(s.leave_procurement(41, 99, 1).unwrap_err(), AppError::NotFound);
}

#[test]
fn list_procurements_filters_conjunctively_and_orders_newest_first() {
    let mut s = Store::new();
    let mut a = base_create("A", "Kazan", "active", 100);
    a.deadline = 99 * DAY_MS;
    let mut b = base_create("B", "Omsk", "active", 100);
    b.deadline = 99 * DAY_MS;
    let mut c = base_create("C", "Kazan", "draft", 100);
    c.deadline = 99 * DAY_MS;
    s.create_procurement(&a, 10).unwrap();
    s.create_procurement(&b, 20).unwrap();
    s.create_procurement(&c, 30).unwrap();

    let all = s.list_procurements(
        &ProcurementQuery { status: None, city: None, category_id: None, organizer_id: None },
        40,
    );
    assert_eq!(all.len(), 3);
    assert_eq!(all[0].title, "C");
    assert_eq!(all[1].title, "B");
    assert_eq!(all[2].title, "A");

    let kazan_active = s.list_procurements(
        &ProcurementQuery {
            status: Some("active".to_string()),
            city: Some("Kazan".to_string()),
            category_id: None,
            organizer_id: None,
        },
        40,
    );
    assert_eq!(kazan_active.len(), 1);
    assert_eq!(kazan_active[0].title, "A");

    let kazan = s.list_procurements(
        &ProcurementQuery {
            status: None,
            city: Some("Kazan".to_string()),
            category_id: None,
            organizer_id: None,
        },
        40,
    );
    assert_eq!(kazan.len(), 2);
    assert_eq!(kazan[0].title, "C");
    assert_eq!(kazan[1].title, "A");
}

#[test]
fn list_categories_keeps_active_sorted_by_name() {
    let mut s = Store::new();
    s.add_category("Grain".to_string(), "".to_string(), None, "".to_string(), true, 1).unwrap();
    s.add_category("Apples".to_string(), "".to_string(), None, "".to_string(), true, 2).unwrap();
    s.add_category("Zinc".to_string(), "".to_string(), None, "".to_string(), false, 3).unwrap();
    s.add_category("Berries".to_string(), "".to_string(), None, "".to_string(), true, 4).unwrap();
    let cats = s.list_categories();
    assert_eq!(cats.len(), 3);
    assert_eq!(cats[0].name, "Apples");
    assert_eq!(cats[1].name, "Berries");
    assert_eq!(cats[2].name, "Grain");
}

#[test]
fn storage_full_when_id_space_exhausted() {
    let mut s = Store::new();
    s.next_procurement_id = i32::MAX;
    let e = s.create_procurement(&base_create("X", "Y", "draft", 1), 0).unwrap_err();
    assert_eq!(e, AppError::StorageFull);
    assert_eq!(e.status_code(), 500);
}
