//! The chat and notification store: append-only message and notification
//! rows. Listing them, filtered and ordered, lives beside the other
//! listings.

use vstd::prelude::*;
use crate::errors::AppError;
use crate::records::{CreateMessage, Instant, Message, MessageQuery, Notification, NotificationQuery};
use crate::store::{
    eq_categories, eq_money_side, eq_procurement_side, eq_sessions, eq_users, Store,
};

verus! {


/// Whether a message passes the listing filter: never a deleted one, and
/// the procurement must match when the filter names one.
pub open spec fn msg_matches(m: Message, q: MessageQuery) -> bool {
    &&& !m.is_deleted
    &&& match q.procurement {
        Option::Some(pid) => m.procurement_id == pid,
        Option::None => true,
    }
}

/// The messages passing the filter, in stored order.
pub open spec fn msg_filter(s: Seq<Message>, q: MessageQuery) -> Seq<Message> {
    s.filter(|m: Message| msg_matches(m, q))
}

/// Whether a notification passes the listing filter.
pub open spec fn notif_matches(n: Notification, q: NotificationQuery) -> bool {
    match q.user {
        Option::Some(uid) => n.user_id == uid,
        Option::None => true,
    }
}

/// The notifications passing the filter, in stored order.
pub open spec fn notif_filter(s: Seq<Notification>, q: NotificationQuery) -> Seq<Notification> {
    s.filter(|n: Notification| notif_matches(n, q))
}

/// Sorts messages by creation instant, oldest first.
fn sort_messages_asc(input: Vec<Message>) -> (r: Vec<Message>)
    ensures
        r@.len() == input@.len(),
        r@.to_multiset() == input@.to_multiset(),
        forall|i: int, j: int|
            0 <= i < j < r@.len() ==> r@[i].created_at <= r@[j].created_at,
{
    broadcast use vstd::seq_lib::group_to_multiset_ensures;

    let mut rem = input;
    let ghost orig = rem@;
    let mut out: Vec<Message> = Vec::new();
    proof {
        assert(out@.to_multiset().add(rem@.to_multiset()) =~= orig.to_multiset());
    }
    while rem.len() > 0
        invariant
            out@.len() + rem@.len() == orig.len(),
            out@.to_multiset().add(rem@.to_multiset()) == orig.to_multiset(),
            forall|i: int, j: int|
                0 <= i < j < out@.len() ==> out@[i].created_at <= out@[j].created_at,
            forall|i: int, j: int|
                0 <= i < out@.len() && 0 <= j < rem@.len() ==> out@[i].created_at
                    <= rem@[j].created_at,
        decreases rem@.len(),
    {
        let mut m: usize = 0;
        let mut i: usize = 1;
        while i < rem.len()
            invariant
                m < i <= rem@.len(),
                forall|j: int| 0 <= j < i ==> rem@[m as int].created_at <= rem@[j].created_at,
            decreases rem@.len() - i,
        {
            if rem[i].created_at < rem[m].created_at {
                m = i;
            }
            i += 1;
        }
        let ghost rem_before = rem@;
        let ghost out_before = out@;
        let x = rem.remove(m);
        out.push(x);
        proof {
            assert(rem@.to_multiset() =~= rem_before.to_multiset().remove(x));
            assert(out@.to_multiset() =~= out_before.to_multiset().insert(x));
            assert(rem_before.to_multiset().count(x) > 0) by {
                assert(rem_before[m as int] == x);
                assert(rem_before.contains(x));
            }
            assert(out@.to_multiset().add(rem@.to_multiset()) =~= orig.to_multiset());
            assert(forall|j: int|
                0 <= j < rem@.len() ==> #[trigger] rem@[j] == (if j < m {
                    rem_before[j]
                } else {
                    rem_before[j + 1]
                }));
        }
    }
    out
}

/// Sorts notifications by creation instant, newest first.
fn sort_notifications_desc(input: Vec<Notification>) -> (r: Vec<Notification>)
    ensures
        r@.len() == input@.len(),
        r@.to_multiset() == input@.to_multiset(),
        forall|i: int, j: int|
            0 <= i < j < r@.len() ==> r@[i].created_at >= r@[j].created_at,
{
    broadcast use vstd::seq_lib::group_to_multiset_ensures;

    let mut rem = input;
    let ghost orig = rem@;
    let mut out: Vec<Notification> = Vec::new();
    proof {
        assert(out@.to_multiset().add(rem@.to_multiset()) =~= orig.to_multiset());
    }
    while rem.len() > 0
        invariant
            out@.len() + rem@.len() == orig.len(),
            out@.to_multiset().add(rem@.to_multiset()) == orig.to_multiset(),
            forall|i: int, j: int|
                0 <= i < j < out@.len() ==> out@[i].created_at >= out@[j].created_at,
            forall|i: int, j: int|
                0 <= i < out@.len() && 0 <= j < rem@.len() ==> out@[i].created_at
                    >= rem@[j].created_at,
        decreases rem@.len(),
    {
        let mut m: usize = 0;
        let mut i: usize = 1;
        while i < rem.len()
            invariant
                m < i <= rem@.len(),
                forall|j: int| 0 <= j < i ==> rem@[m as int].created_at >= rem@[j].created_at,
            decreases rem@.len() - i,
        {
            if rem[i].created_at > rem[m].created_at {
                m = i;
            }
            i += 1;
        }
        let ghost rem_before = rem@;
        let ghost out_before = out@;
        let x = rem.remove(m);
        out.push(x);
        proof {
            assert(rem@.to_multiset() =~= rem_before.to_multiset().remove(x));
            assert(out@.to_multiset() =~= out_before.to_multiset().insert(x));
            assert(rem_before.to_multiset().count(x) > 0) by {
                assert(rem_before[m as int] == x);
                assert(rem_before.contains(x));
            }
            assert(out@.to_multiset().add(rem@.to_multiset()) =~= orig.to_multiset());
            assert(forall|j: int|
                0 <= j < rem@.len() ==> #[trigger] rem@[j] == (if j < m {
                    rem_before[j]
                } else {
                    rem_before[j + 1]
                }));
        }
    }
    out
}

impl Store {
    /// Appends a chat message: the type defaults to `text`, the
    /// attachment to none, and the flags start clear.
    pub fn create_message(&mut self, req: &CreateMessage, now: Instant) -> (r: Result<
        Message,
        AppError,
    >)
        requires
            old(self).wf(),
        ensures
            final(self).wf(),
            match r {
                Result::Err(e) => {
                    &&& e == AppError::StorageFull
                    &&& old(self).next_message_id == i32::MAX
                    &&& *final(self) == *old(self)
                },
                Result::Ok(m) => {
                    &&& old(self).next_message_id < i32::MAX
                    &&& m.id == old(self).next_message_id
                    &&& m.procurement_id == req.procurement
                    &&& m.user_id == req.user
                    &&& m.message_type@ == (match req.message_type {
                        Option::Some(t) => t@,
                        Option::None => "text"@,
                    })
                    &&& m.text == req.text
                    &&& m.attachment_url@ == (match req.attachment_url {
                        Option::Some(a) => a@,
                        Option::None => Seq::<char>::empty(),
                    })
                    &&& !m.is_edited
                    &&& !m.is_deleted
                    &&& m.created_at == now
                    &&& m.updated_at == now
                    &&& final(self).messages@ =~= old(self).messages@.push(m)
                    &&& final(self).next_message_id == old(self).next_message_id + 1
                    &&& final(self).notifications@ == old(self).notifications@
                    &&& final(self).next_notification_id == old(self).next_notification_id
                    &&& eq_procurement_side(*final(self), *old(self))
                    &&& eq_users(*final(self), *old(self))
                    &&& eq_categories(*final(self), *old(self))
                    &&& eq_money_side(*final(self), *old(self))
                    &&& eq_sessions(*final(self), *old(self))
                },
            },
    {
        if self.next_message_id == i32::MAX {
            return Result::Err(AppError::StorageFull);
        }
        let id = self.next_message_id;
        let m = Message {
            id,
            procurement_id: req.procurement,
            user_id: req.user,
            message_type: match &req.message_type {
                Option::Some(t) => t.clone(),
                Option::None => "text".to_owned(),
            },
            text: req.text.clone(),
            attachment_url: match &req.attachment_url {
                Option::Some(a) => a.clone(),
                Option::None => String::new(),
            },
            is_edited: false,
            is_deleted: false,
            created_at: now,
            updated_at: now,
        };
        let result = m.duplicate();
        self.messages.push(m);
        self.next_message_id = id + 1;
        proof {
            assert(self.message_ids() =~= old(self).message_ids().push(id));
        }
        Result::Ok(result)
    }


    /// Lists chat messages, oldest first: all the undeleted messages of a
    /// procurement when the filter names one, else the hundred oldest
    /// undeleted messages.
    pub fn list_messages(&self, q: &MessageQuery) -> (r: Vec<Message>)
        requires
            self.wf(),
        ensures
            forall|i: int, j: int|
                0 <= i < j < r@.len() ==> r@[i].created_at <= r@[j].created_at,
            ({
                let f = msg_filter(self.messages@, *q);
                match q.procurement {
                    Option::Some(pid) => r@.len() == f.len() && r@.to_multiset()
                        == f.to_multiset(),
                    Option::None => {
                        &&& r@.len() == (if f.len() <= 100 {
                            f.len() as int
                        } else {
                            100int
                        })
                        &&& r@.to_multiset().subset_of(f.to_multiset())
                        &&& forall|i: int, m: Message|
                            0 <= i < r@.len() && f.to_multiset().count(m) > r@.to_multiset().count(
                                m,
                            ) ==> r@[i].created_at <= m.created_at
                    },
                }
            }),
    {
        broadcast use vstd::prelude::Seq::lemma_filter_push;
        broadcast use vstd::seq_lib::group_to_multiset_ensures;

        let n = self.messages.len();
        let mut picked: Vec<Message> = Vec::new();
        let mut i: usize = 0;
        proof {
            assert(self.messages@.subrange(0, 0) =~= Seq::<Message>::empty());
            assert(Seq::<Message>::empty().filter(|m: Message| msg_matches(m, *q))
                =~= Seq::<Message>::empty());
        }
        while i < n
            invariant
                i <= n,
                n == self.messages@.len(),
                picked@ =~= msg_filter(self.messages@.subrange(0, i as int), *q),
            decreases n - i,
        {
            proof {
                assert(self.messages@.subrange(0, i as int + 1) =~= self.messages@.subrange(
                    0,
                    i as int,
                ).push(self.messages@[i as int]));
            }
            let m = &self.messages[i];
            let keep = !m.is_deleted && (match q.procurement {
                Option::Some(pid) => m.procurement_id == pid,
                Option::None => true,
            });
            if keep {
                picked.push(m.duplicate());
            }
            i += 1;
        }
        proof {
            assert(self.messages@.subrange(0, n as int) =~= self.messages@);
        }
        let mut sorted = sort_messages_asc(picked);
        let ghost full = sorted@;
        let limited = match q.procurement {
            Option::Some(_) => false,
            Option::None => true,
        };
        if limited && sorted.len() > 100 {
            sorted.truncate(100);
        }
        proof {
            let f = msg_filter(self.messages@, *q);
            if limited && full.len() > 100 {
                assert(sorted@ =~= full.take(100));
                assert(full =~= full.take(100) + full.skip(100));
                vstd::seq_lib::lemma_multiset_commutative(full.take(100), full.skip(100));
                assert(f.to_multiset() =~= sorted@.to_multiset().add(full.skip(100).to_multiset()));
                assert forall|m: Message|
                    sorted@.to_multiset().count(m) <= f.to_multiset().count(m) by {}
                assert(sorted@.to_multiset().subset_of(f.to_multiset()));
                assert forall|i2: int, m: Message|
                    0 <= i2 < sorted@.len() && f.to_multiset().count(m)
                        > sorted@.to_multiset().count(m) implies sorted@[i2].created_at
                    <= m.created_at by {
                    assert(full.skip(100).to_multiset().count(m) > 0);
                    assert(full.skip(100).contains(m));
                    let j2 = choose|j2: int|
                        0 <= j2 < full.skip(100).len() && full.skip(100)[j2] == m;
                    assert(full[100 + j2] == m);
                    assert(sorted@[i2] == full[i2]);
                    assert(full[i2].created_at <= full[100 + j2].created_at);
                }
            } else {
                assert(sorted@.to_multiset() == f.to_multiset());
                assert forall|m: Message|
                    sorted@.to_multiset().count(m) <= f.to_multiset().count(m) by {}
                assert(sorted@.to_multiset().subset_of(f.to_multiset()));
            }
        }
        sorted
    }

    /// Lists notifications, newest first: all of a user's when the filter
    /// names one, else the hundred newest.
    pub fn list_notifications(&self, q: &NotificationQuery) -> (r: Vec<Notification>)
        requires
            self.wf(),
        ensures
            forall|i: int, j: int|
                0 <= i < j < r@.len() ==> r@[i].created_at >= r@[j].created_at,
            ({
                let f = notif_filter(self.notifications@, *q);
                match q.user {
                    Option::Some(uid) => r@.len() == f.len() && r@.to_multiset()
                        == f.to_multiset(),
                    Option::None => {
                        &&& r@.len() == (if f.len() <= 100 {
                            f.len() as int
                        } else {
                            100int
                        })
                        &&& r@.to_multiset().subset_of(f.to_multiset())
                        &&& forall|i: int, m: Notification|
                            0 <= i < r@.len() && f.to_multiset().count(m) > r@.to_multiset().count(
                                m,
                            ) ==> r@[i].created_at >= m.created_at
                    },
                }
            }),
    {
        broadcast use vstd::prelude::Seq::lemma_filter_push;
        broadcast use vstd::seq_lib::group_to_multiset_ensures;

        let n = self.notifications.len();
        let mut picked: Vec<Notification> = Vec::new();
        let mut i: usize = 0;
        proof {
            assert(self.notifications@.subrange(0, 0) =~= Seq::<Notification>::empty());
            assert(Seq::<Notification>::empty().filter(|m: Notification| notif_matches(m, *q))
                =~= Seq::<Notification>::empty());
        }
        while i < n
            invariant
                i <= n,
                n == self.notifications@.len(),
                picked@ =~= notif_filter(self.notifications@.subrange(0, i as int), *q),
            decreases n - i,
        {
            proof {
                assert(self.notifications@.subrange(0, i as int + 1)
                    =~= self.notifications@.subrange(0, i as int).push(
                    self.notifications@[i as int],
                ));
            }
            let m = &self.notifications[i];
            let keep = match q.user {
                Option::Some(uid) => m.user_id == uid,
                Option::None => true,
            };
            if keep {
                picked.push(m.duplicate());
            }
            i += 1;
        }
        proof {
            assert(self.notifications@.subrange(0, n as int) =~= self.notifications@);
        }
        let mut sorted = sort_notifications_desc(picked);
        let ghost full = sorted@;
        let limited = match q.user {
            Option::Some(_) => false,
            Option::None => true,
        };
        if limited && sorted.len() > 100 {
            sorted.truncate(100);
        }
        proof {
            let f = notif_filter(self.notifications@, *q);
            if limited && full.len() > 100 {
                assert(sorted@ =~= full.take(100));
                assert(full =~= full.take(100) + full.skip(100));
                vstd::seq_lib::lemma_multiset_commutative(full.take(100), full.skip(100));
                assert(f.to_multiset() =~= sorted@.to_multiset().add(full.skip(100).to_multiset()));
                assert forall|m: Notification|
                    sorted@.to_multiset().count(m) <= f.to_multiset().count(m) by {}
                assert(sorted@.to_multiset().subset_of(f.to_multiset()));
                assert forall|i2: int, m: Notification|
                    0 <= i2 < sorted@.len() && f.to_multiset().count(m)
                        > sorted@.to_multiset().count(m) implies sorted@[i2].created_at
                    >= m.created_at by {
                    assert(full.skip(100).to_multiset().count(m) > 0);
                    assert(full.skip(100).contains(m));
                    let j2 = choose|j2: int|
                        0 <= j2 < full.skip(100).len() && full.skip(100)[j2] == m;
                    assert(full[100 + j2] == m);
                    assert(sorted@[i2] == full[i2]);
                    assert(full[i2].created_at >= full[100 + j2].created_at);
                }
            } else {
                assert(sorted@.to_multiset() == f.to_multiset());
                assert forall|m: Notification|
                    sorted@.to_multiset().count(m) <= f.to_multiset().count(m) by {}
                assert(sorted@.to_multiset().subset_of(f.to_multiset()));
            }
        }
        sorted
    }

    /// Inserts a notification row: the gateway primitive an external
    /// notifier writes through.
    pub fn add_notification(
        &mut self,
        user_id: i32,
        notification_type: String,
        title: String,
        message: String,
        procurement_id: Option<i32>,
        now: Instant,
    ) -> (r: Result<Notification, AppError>)
        requires
            old(self).wf(),
        ensures
            final(self).wf(),
            match r {
                Result::Err(e) => {
                    &&& e == AppError::StorageFull
                    &&& old(self).next_notification_id == i32::MAX
                    &&& *final(self) == *old(self)
                },
                Result::Ok(n) => {
                    &&& old(self).next_notification_id < i32::MAX
                    &&& n.id == old(self).next_notification_id
                    &&& n.user_id == user_id
                    &&& n.notification_type == notification_type
                    &&& n.title == title
                    &&& n.message == message
                    &&& n.procurement_id == procurement_id
                    &&& !n.is_read
                    &&& n.created_at == now
                    &&& final(self).notifications@ =~= old(self).notifications@.push(n)
                    &&& final(self).next_notification_id == old(self).next_notification_id + 1
                    &&& final(self).messages@ == old(self).messages@
                    &&& final(self).next_message_id == old(self).next_message_id
                    &&& eq_procurement_side(*final(self), *old(self))
                    &&& eq_users(*final(self), *old(self))
                    &&& eq_categories(*final(self), *old(self))
                    &&& eq_money_side(*final(self), *old(self))
                    &&& eq_sessions(*final(self), *old(self))
                },
            },
    {
        if self.next_notification_id == i32::MAX {
            return Result::Err(AppError::StorageFull);
        }
        let id = self.next_notification_id;
        let n = Notification {
            id,
            user_id,
            notification_type,
            title,
            message,
            procurement_id,
            is_read: false,
            created_at: now,
        };
        let result = n.duplicate();
        self.notifications.push(n);
        self.next_notification_id = id + 1;
        proof {
            assert(self.notification_ids() =~= old(self).notification_ids().push(id));
        }
        Result::Ok(result)
    }
}

} // verus!
