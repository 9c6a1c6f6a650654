use groupbuy_core::errors::AppError;
use groupbuy_core::records::{CreateMessage, CreatePayment, MessageQuery, NotificationQuery};
use groupbuy_core::relay::{RecvOutcome, RelayFrame, RelayReaction, Topic, relay_reaction};
use groupbuy_core::store::Store;

#[test]
fn subscriber_receives_later_messages_exactly_once_and_no_earlier_ones() {
    let mut topic = Topic::new(1000);
    topic.publish("before".to_string());
    let mut b = topic.subscribe();
    topic.publish("one".to_string());
    topic.publish("two".to_string());
    let got = topic.drain(&mut b);
    assert_eq!(got, vec!["one".to_string(), "two".to_string()]);
    // nothing is replayed
    let again = topic.drain(&mut b);
    assert!(again.is_empty());
}

#[test]
fn every_subscriber_gets_each_published_message() {
    let mut topic = Topic::new(16);
    let mut a = topic.subscribe();
    let mut b = topic.subscribe();
    topic.publish("hello".to_string());
    assert_eq!(topic.drain(&mut a), vec!["hello".to_string()]);
    assert_eq!(topic.drain(&mut b), vec!["hello".to_string()]);
}

#[test]
fn receive_hands_out_one_message_at_a_time() {
    let mut topic = Topic::new(8);
    let mut s = topic.subscribe();
    topic.publish("m1".to_string());
    topic.publish("m2".to_string());
    match topic.receive(&mut s) {
        RecvOutcome::Message(m) => assert_eq!(m, "m1"),
        _ => panic!("expected a message"),
    }
    match topic.receive(&mut s) {
        RecvOutcome::Message(m) => assert_eq!(m, "m2"),
        _ => panic!("expected a message"),
    }
    match topic.receive(&mut s) {
        RecvOutcome::Empty => {},
        _ => panic!("expected nothing pending"),
    }
}

#[test]
fn lagging_subscriber_loses_oldest_messages() {
    let mut topic = Topic::new(2);
    let mut s = topic.subscribe();
    topic.publish("a".to_string());
    topic.publish("b".to_string());
    topic.publish("c".to_string());
    match topic.receive(&mut s) {
        RecvOutcome::Lagged(missed) => assert_eq!(missed, 1),
        _ => panic!("expected a lag notice"),
    }
    match topic.receive(&mut s) {
        RecvOutcome::Message(m) => assert_eq!(m, "b"),
        _ => panic!("expected a message"),
    }
}

#[test]
fn relay_reacts_to_frames() {
    match relay_reaction(RelayFrame::Text("hi".to_string())) {
        RelayReaction::Broadcast(m) => assert_eq!(m, "hi"),
        _ => panic!("text is rebroadcast"),
    }
    match relay_reaction(RelayFrame::Ping(vec![1, 2])) {
        RelayReaction::Pong(p) => assert_eq!(p, vec![1, 2]),
        _ => panic!("ping is answered"),
    }
    assert!(matches!(relay_reaction(RelayFrame::Close), RelayReaction::Stop));
    assert!(matches!(relay_reaction(RelayFrame::Other), RelayReaction::Ignore));
}

#[test]
fn payment_created_pending_and_status_readable() {
    let mut s = Store::new();
    let req = CreatePayment {
        user_id: 3,
        payment_type: "topup".to_string(),
        amount: 5000,
        procurement_id: None,
        description: None,
    };
    let p = s.create_payment(&req, 9).unwrap();
    assert_eq!(p.status, "pending");
    assert_eq!(p.metadata, "{}");
    let view = s.get_payment_status(p.id).unwrap();
    assert_eq!(view.status_display, "Pending");
    assert_eq!(view.amount, 5000);
    assert_eq!(s.get_payment_status(p.id + 1).unwrap_err(), AppError::NotFound);
}

#[test]
fn messages_filtered_by_procurement_oldest_first() {
    let mut s = Store::new();
    for (pid, text, at) in [(1, "late", 30), (1, "early", 10), (2, "other", 20)] {
        let req = CreateMessage {
            procurement: pid,
            user: None,
            text: text.to_string(),
            message_type: None,
            attachment_url: None,
        };
        s.create_message(&req, at).unwrap();
    }
    let q = MessageQuery { procurement: Some(1), user: None };
    let got = s.list_messages(&q);
    assert_eq!(got.len(), 2);
    assert_eq!(got[0].text, "early");
    assert_eq!(got[1].text, "late");
    assert_eq!(got[0].message_type, "text");
}

#[test]
fn unfiltered_messages_limited_to_hundred_oldest() {
    let mut s = Store::new();
    for i in 0..130i64 {
        let req = CreateMessage {
            procurement: 1,
            user: None,
            text: format!("m{}", i),
            message_type: None,
            attachment_url: None,
        };
        s.create_message(&req, 1000 - i).unwrap();
    }
    let q = MessageQuery { procurement: None, user: None };
    let got = s.list_messages(&q);
    assert_eq!(got.len(), 100);
    // the oldest hundred survive, oldest first
    assert_eq!(got[0].created_at, 871);
    assert_eq!(got[99].created_at, 970);
}

#[test]
fn notifications_filtered_by_user_newest_first() {
    let mut s = Store::new();
    s.add_notification(1, "info".to_string(), "t1".to_string(), "m1".to_string(), None, 10)
        .unwrap();
    s.add_notification(2, "info".to_string(), "t2".to_string(), "m2".to_string(), None, 20)
        .unwrap();
    s.add_notification(1, "info".to_string(), "t3".to_string(), "m3".to_string(), None, 30)
        .unwrap();
    let q = NotificationQuery { user: Some(1) };
    let got = s.list_notifications(&q);
    assert_eq!(got.len(), 2);
    assert_eq!(got[0].title, "t3");
    assert_eq!(got[1].title, "t1");

    let all = s.list_notifications(&NotificationQuery { user: None });
    assert_eq!(all.len(), 3);
    assert_eq!(all[0].title, "t3");
    assert_eq!(all[2].title, "t1");
}

#[test]
fn listings_on_empty_store_are_empty() {
    let s = Store::new();
    assert!(s.list_messages(&MessageQuery { procurement: None, user: None }).is_empty());
    assert!(s.list_notifications(&NotificationQuery { user: None }).is_empty());
    assert!(s.list_categories().is_empty());
    assert!(s.list_users().is_empty());
}
