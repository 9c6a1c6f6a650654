use groupbuy_core::present::{
    days_left, full_name, payment_status_display, progress, role_display, status_display,
};
use groupbuy_core::records::{CreateProcurement, ProcurementQuery};
use groupbuy_core::store::Store;
use groupbuy_core::text::{normalize_phone, trim_str};
use groupbuy_core::validate::{validate_email, validate_phone, validate_procurement_form};

const DAY_MS: i64 = 86_400_000;

#[test]
fn progress_is_zero_for_zero_target() {
    assert_eq!(progress(1_000, 0), 0);
}

#[test]
fn progress_is_floored_ratio() {
    assert_eq!(progress(150, 200), 75);
    assert_eq!(progress(1, 3), 33);
    assert_eq!(progress(0, 500), 0);
}

#[test]
fn progress_is_clamped_to_hundred() {
    assert_eq!(progress(250, 200), 100);
    assert_eq!(progress(i64::MAX, 1), 100);
}

#[test]
fn progress_never_negative() {
    assert_eq!(progress(-50, 200), 0);
}

#[test]
fn days_left_floors_and_never_negative() {
    assert_eq!(days_left(5 * DAY_MS, 0), 5);
    assert_eq!(days_left(5 * DAY_MS + DAY_MS / 2, 0), 5);
    assert_eq!(days_left(DAY_MS - 1, 0), 0);
    assert_eq!(days_left(0, DAY_MS), 0);
}

#[test]
fn status_labels_pass_unknown_codes_through() {
    assert_eq!(status_display("draft"), "Draft");
    assert_eq!(status_display("active"), "Active");
    assert_eq!(status_display("stopped"), "Stopped");
    assert_eq!(status_display("payment"), "Payment in Progress");
    assert_eq!(status_display("completed"), "Completed");
    assert_eq!(status_display("cancelled"), "Cancelled");
    assert_eq!(status_display("archived"), "archived");
}

#[test]
fn role_and_payment_labels() {
    assert_eq!(role_display("buyer"), "Buyer");
    assert_eq!(role_display("organizer"), "Organizer");
    assert_eq!(role_display("supplier"), "Supplier");
    assert_eq!(role_display("other"), "other");
    assert_eq!(payment_status_display("pending"), "Pending");
    assert_eq!(payment_status_display("waiting_for_capture"), "Waiting for Capture");
    assert_eq!(payment_status_display("succeeded"), "Succeeded");
    assert_eq!(payment_status_display("cancelled"), "Cancelled");
    assert_eq!(payment_status_display("refunded"), "Refunded");
    assert_eq!(payment_status_display("weird"), "weird");
}

#[test]
fn full_name_joins_and_trims() {
    assert_eq!(full_name("Anna", "Ivanova"), "Anna Ivanova");
    assert_eq!(full_name("Anna", ""), "Anna");
    assert_eq!(full_name("", "Ivanova"), "Ivanova");
    assert_eq!(full_name("", ""), "");
}

#[test]
fn trim_removes_whitespace_both_ends() {
    assert_eq!(trim_str("  hi there\t"), "hi there");
    assert_eq!(trim_str("\u{00A0}x\u{00A0}"), "x");
    assert_eq!(trim_str("   "), "");
}

#[test]
fn normalize_phone_cases() {
    assert_eq!(normalize_phone("79991234567"), "+79991234567");
    assert_eq!(normalize_phone("+79991234567"), "+79991234567");
    assert_eq!(normalize_phone(""), "");
}

#[test]
fn can_join_true_within_deadline_and_cap() {
    let mut s = Store::new();
    let req = CreateProcurement {
        title: "Sugar".to_string(),
        description: "White".to_string(),
        category_id: None,
        organizer_id: 1,
        city: "Tula".to_string(),
        delivery_address: None,
        target_amount: 200,
        stop_at_amount: None,
        unit: None,
        price_per_unit: None,
        status: Some("active".to_string()),
        deadline: 2 * DAY_MS,
        payment_deadline: None,
        image_url: None,
    };
    let p = s.create_procurement(&req, 0).unwrap();
    let view = s.get_procurement(p.id, DAY_MS).unwrap();
    assert!(view.can_join);
    assert_eq!(view.days_left, 1);
    assert_eq!(view.status_display, "Active");
}

#[test]
fn can_join_false_when_not_active_or_past_deadline_or_capped() {
    let mut s = Store::new();
    let mut req = CreateProcurement {
        title: "Sugar".to_string(),
        description: "White".to_string(),
        category_id: None,
        organizer_id: 1,
        city: "Tula".to_string(),
        delivery_address: None,
        target_amount: 200,
        stop_at_amount: None,
        unit: None,
        price_per_unit: None,
        status: Some("stopped".to_string()),
        deadline: 2 * DAY_MS,
        payment_deadline: None,
        image_url: None,
    };
    let a = s.create_procurement(&req, 0).unwrap();
    assert!(!s.get_procurement(a.id, DAY_MS).unwrap().can_join);

    req.status = Some("active".to_string());
    let b = s.create_procurement(&req, 0).unwrap();
    assert!(!s.get_procurement(b.id, 2 * DAY_MS).unwrap().can_join);

    req.stop_at_amount = Some(100);
    let c = s.create_procurement(&req, 0).unwrap();
    let join = groupbuy_core::records::JoinProcurement {
        user_id: Some(1),
        amount: 100,
        quantity: None,
        notes: None,
    };
    s.join_procurement(c.id, &join, 1).unwrap();
    assert!(!s.get_procurement(c.id, DAY_MS).unwrap().can_join);
}

#[test]
fn list_annotates_progress_and_count() {
    let mut s = Store::new();
    let req = CreateProcurement {
        title: "Honey".to_string(),
        description: "Raw".to_string(),
        category_id: None,
        organizer_id: 1,
        city: "Ufa".to_string(),
        delivery_address: None,
        target_amount: 200,
        stop_at_amount: None,
        unit: None,
        price_per_unit: None,
        status: Some("active".to_string()),
        deadline: 9 * DAY_MS,
        payment_deadline: None,
        image_url: None,
    };
    let p = s.create_procurement(&req, 0).unwrap();
    let join = groupbuy_core::records::JoinProcurement {
        user_id: Some(1),
        amount: 150,
        quantity: None,
        notes: None,
    };
    s.join_procurement(p.id, &join, 1).unwrap();
    let q = ProcurementQuery { status: None, city: None, category_id: None, organizer_id: None };
    let all = s.list_procurements(&q, 2);
    assert_eq!(all.len(), 1);
    assert_eq!(all[0].progress, 75);
    assert_eq!(all[0].participant_count, 1);
}

#[test]
fn phone_validation_shapes() {
    assert!(validate_phone(""));
    assert!(validate_phone("+79991234567"));
    assert!(validate_phone("+7 (999) 123-45-67"));
    assert!(!validate_phone("79991234567"));
    assert!(!validate_phone("+7999"));
    assert!(validate_phone("+++79991234567"));
    assert!(!validate_phone("+7999123+4567"));
    assert!(validate_phone("abc"));
}

#[test]
fn email_validation_shapes() {
    assert!(validate_email(""));
    assert!(validate_email("user@mail.ru"));
    assert!(!validate_email("user"));
    assert!(!validate_email("user@"));
    assert!(!validate_email("@mail.ru"));
    assert!(!validate_email("a@b@c.ru"));
    assert!(!validate_email("user@ru"));
}

#[test]
fn form_validation_renders_error_map() {
    let ok = validate_procurement_form("Tea", "Loose leaf", "Tver", 100, 2 * DAY_MS, DAY_MS);
    assert_eq!(ok, "{}");

    let bad = validate_procurement_form("  ", "d", "c", 0, 0, DAY_MS);
    assert_eq!(
        bad,
        "{\"title\":\"Название обязательно\",\"target_amount\":\"Целевая сумма должна быть положительной\",\"deadline\":\"Дедлайн должен быть в будущем\"}"
    );

    let long_title = "x".repeat(201);
    let too_long = validate_procurement_form(&long_title, "d", "c", 1, 2 * DAY_MS, DAY_MS);
    assert_eq!(too_long, "{\"title\":\"Название не должно превышать 200 символов\"}");
}
