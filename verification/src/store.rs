//! The in-memory model of the persistence gateway: every table the engine
//! touches, with the invariants the durable schema enforces — unique ids,
//! one participant row per (procurement, user), one session row per user,
//! a unique (platform, platform user id) pair, and every procurement's
//! cached `current_amount` equal to the exact sum of its active
//! participants' amounts.

use vstd::prelude::*;
use crate::records::{
    Category, Message, Notification, Participant, Payment, Procurement, Transaction, User,
    UserSession,
};

verus! {

/// The whole durable state.
pub struct Store {
    pub procurements: Vec<Procurement>,
    pub participants: Vec<Participant>,
    pub users: Vec<User>,
    pub categories: Vec<Category>,
    pub messages: Vec<Message>,
    pub notifications: Vec<Notification>,
    pub payments: Vec<Payment>,
    pub transactions: Vec<Transaction>,
    pub sessions: Vec<UserSession>,
    pub next_procurement_id: i32,
    pub next_participant_id: i32,
    pub next_user_id: i32,
    pub next_category_id: i32,
    pub next_message_id: i32,
    pub next_notification_id: i32,
    pub next_payment_id: i32,
    pub next_transaction_id: i32,
    pub next_session_id: i32,
}

/// What one participant row adds to the aggregate of procurement `pid`:
/// its amount when it is an active row of that procurement, else nothing.
pub open spec fn share_of(p: Participant, pid: i32) -> int {
    if p.procurement_id == pid && p.is_active {
        p.amount as int
    } else {
        0
    }
}

/// The exact sum of `amount` over the active participants of `pid`.
pub open spec fn active_sum(parts: Seq<Participant>, pid: i32) -> int
    decreases parts.len(),
{
    if parts.len() == 0 {
        0
    } else {
        active_sum(parts.drop_last(), pid) + share_of(parts.last(), pid)
    }
}

/// The number of active participant rows of procurement `pid`.
pub open spec fn active_count(parts: Seq<Participant>, pid: i32) -> int
    decreases parts.len(),
{
    if parts.len() == 0 {
        0
    } else {
        active_count(parts.drop_last(), pid) + (
        if parts.last().procurement_id == pid && parts.last().is_active {
            1int
        } else {
            0int
        })
    }
}

/// The sum of `amount` over a user's ledger entries of type `deposit`.
pub open spec fn deposit_sum(ts: Seq<Transaction>, uid: i32) -> int
    decreases ts.len(),
{
    if ts.len() == 0 {
        0
    } else {
        deposit_sum(ts.drop_last(), uid) + (
        if ts.last().user_id == uid && ts.last().transaction_type@ == "deposit"@ {
            ts.last().amount as int
        } else {
            0int
        })
    }
}

/// The sum of the absolute values of a user's negative ledger amounts.
pub open spec fn spent_sum(ts: Seq<Transaction>, uid: i32) -> int
    decreases ts.len(),
{
    if ts.len() == 0 {
        0
    } else {
        spent_sum(ts.drop_last(), uid) + (
        if ts.last().user_id == uid && ts.last().amount < 0 {
            -(ts.last().amount as int)
        } else {
            0int
        })
    }
}

/// A table's id discipline: ids are drawn from `[1, next)`, never reused,
/// and the row count stays below the id counter.
pub open spec fn ids_ok(ids: Seq<i32>, next: i32) -> bool {
    &&& next >= 1
    &&& ids.len() <= next - 1
    &&& forall|i: int| 0 <= i < ids.len() ==> 1 <= #[trigger] ids[i] < next
    &&& forall|i: int, j: int| 0 <= i < j < ids.len() ==> ids[i] != ids[j]
}

impl Store {
    pub open spec fn procurement_ids(self) -> Seq<i32> {
        self.procurements@.map_values(|p: Procurement| p.id)
    }

    pub open spec fn participant_ids(self) -> Seq<i32> {
        self.participants@.map_values(|p: Participant| p.id)
    }

    pub open spec fn user_ids(self) -> Seq<i32> {
        self.users@.map_values(|u: User| u.id)
    }

    pub open spec fn category_ids(self) -> Seq<i32> {
        self.categories@.map_values(|c: Category| c.id)
    }

    pub open spec fn message_ids(self) -> Seq<i32> {
        self.messages@.map_values(|m: Message| m.id)
    }

    pub open spec fn notification_ids(self) -> Seq<i32> {
        self.notifications@.map_values(|n: Notification| n.id)
    }

    pub open spec fn payment_ids(self) -> Seq<i32> {
        self.payments@.map_values(|p: Payment| p.id)
    }

    pub open spec fn transaction_ids(self) -> Seq<i32> {
        self.transactions@.map_values(|t: Transaction| t.id)
    }

    pub open spec fn session_ids(self) -> Seq<i32> {
        self.sessions@.map_values(|s: UserSession| s.id)
    }

    /// One participant row per (procurement, user).
    pub open spec fn participants_unique(self) -> bool {
        forall|i: int, j: int|
            0 <= i < j < self.participants@.len() ==> !(
            #[trigger] self.participants@[i].procurement_id
                == #[trigger] self.participants@[j].procurement_id
                && self.participants@[i].user_id == self.participants@[j].user_id)
    }

    /// One user per (platform, platform user id) pair.
    pub open spec fn users_unique(self) -> bool {
        forall|i: int, j: int|
            0 <= i < j < self.users@.len() ==> !((#[trigger] self.users@[i]).platform@
                == (#[trigger] self.users@[j]).platform@ && self.users@[i].platform_user_id@
                == self.users@[j].platform_user_id@)
    }

    /// At most one dialog-state row per user.
    pub open spec fn sessions_unique(self) -> bool {
        forall|i: int, j: int|
            0 <= i < j < self.sessions@.len() ==> (#[trigger] self.sessions@[i]).user_id != (
            #[trigger] self.sessions@[j]).user_id
    }

    /// Every participant row points at a procurement that exists.
    pub open spec fn participants_reference_procurements(self) -> bool {
        forall|i: int|
            0 <= i < self.participants@.len() ==> self.has_procurement(
                (#[trigger] self.participants@[i]).procurement_id)
    }

    /// Every procurement's cached amount equals the exact sum over its
    /// active participants.
    pub open spec fn amounts_consistent(self) -> bool {
        forall|i: int|
            0 <= i < self.procurements@.len() ==> (#[trigger] self.procurements@[i]).current_amount
                as int == active_sum(self.participants@, self.procurements@[i].id)
    }

    /// The store's whole well-formedness.
    pub open spec fn wf(self) -> bool {
        &&& ids_ok(self.procurement_ids(), self.next_procurement_id)
        &&& ids_ok(self.participant_ids(), self.next_participant_id)
        &&& ids_ok(self.user_ids(), self.next_user_id)
        &&& ids_ok(self.category_ids(), self.next_category_id)
        &&& ids_ok(self.message_ids(), self.next_message_id)
        &&& ids_ok(self.notification_ids(), self.next_notification_id)
        &&& ids_ok(self.payment_ids(), self.next_payment_id)
        &&& ids_ok(self.transaction_ids(), self.next_transaction_id)
        &&& ids_ok(self.session_ids(), self.next_session_id)
        &&& self.participants_unique()
        &&& self.participants_reference_procurements()
        &&& self.users_unique()
        &&& self.sessions_unique()
        &&& self.amounts_consistent()
    }

    // ---- spec lookups ----

    pub open spec fn has_procurement(self, id: i32) -> bool {
        exists|i: int| 0 <= i < self.procurements@.len() && (#[trigger] self.procurements@[i]).id == id
    }

    pub open spec fn procurement_index(self, id: i32) -> int {
        choose|i: int| 0 <= i < self.procurements@.len() && (#[trigger] self.procurements@[i]).id == id
    }

    pub open spec fn procurement_by_id(self, id: i32) -> Procurement {
        self.procurements@[self.procurement_index(id)]
    }

    pub open spec fn has_user(self, id: i32) -> bool {
        exists|i: int| 0 <= i < self.users@.len() && (#[trigger] self.users@[i]).id == id
    }

    pub open spec fn user_index(self, id: i32) -> int {
        choose|i: int| 0 <= i < self.users@.len() && (#[trigger] self.users@[i]).id == id
    }

    pub open spec fn user_by_id(self, id: i32) -> User {
        self.users@[self.user_index(id)]
    }

    pub open spec fn has_user_by_platform(self, platform: Seq<char>, puid: Seq<char>) -> bool {
        exists|i: int|
            0 <= i < self.users@.len() && (#[trigger] self.users@[i]).platform@ == platform
                && self.users@[i].platform_user_id@ == puid
    }

    pub open spec fn user_index_by_platform(self, platform: Seq<char>, puid: Seq<char>) -> int {
        choose|i: int|
            0 <= i < self.users@.len() && (#[trigger] self.users@[i]).platform@ == platform
                && self.users@[i].platform_user_id@ == puid
    }

    pub open spec fn has_participant(self, pid: i32, uid: i32) -> bool {
        exists|i: int|
            0 <= i < self.participants@.len() && (#[trigger] self.participants@[i]).procurement_id
                == pid && self.participants@[i].user_id == uid
    }

    pub open spec fn participant_index(self, pid: i32, uid: i32) -> int {
        choose|i: int|
            0 <= i < self.participants@.len() && (#[trigger] self.participants@[i]).procurement_id
                == pid && self.participants@[i].user_id == uid
    }

    pub open spec fn has_session(self, uid: i32) -> bool {
        exists|i: int| 0 <= i < self.sessions@.len() && (#[trigger] self.sessions@[i]).user_id == uid
    }

    pub open spec fn session_index(self, uid: i32) -> int {
        choose|i: int| 0 <= i < self.sessions@.len() && (#[trigger] self.sessions@[i]).user_id == uid
    }

    pub open spec fn has_payment(self, id: i32) -> bool {
        exists|i: int| 0 <= i < self.payments@.len() && (#[trigger] self.payments@[i]).id == id
    }

    pub open spec fn payment_index(self, id: i32) -> int {
        choose|i: int| 0 <= i < self.payments@.len() && (#[trigger] self.payments@[i]).id == id
    }

    pub open spec fn payment_by_id(self, id: i32) -> Payment {
        self.payments@[self.payment_index(id)]
    }

    // ---- construction ----

    /// An empty store: no rows, every id counter at 1.
    pub fn new() -> (s: Store)
        ensures
            s.wf(),
            s.procurements@ =~= Seq::<Procurement>::empty(),
            s.participants@ =~= Seq::<Participant>::empty(),
            s.users@ =~= Seq::<User>::empty(),
            s.categories@ =~= Seq::<Category>::empty(),
            s.messages@ =~= Seq::<Message>::empty(),
            s.notifications@ =~= Seq::<Notification>::empty(),
            s.payments@ =~= Seq::<Payment>::empty(),
            s.transactions@ =~= Seq::<Transaction>::empty(),
            s.sessions@ =~= Seq::<UserSession>::empty(),
    {
        Store {
            procurements: Vec::new(),
            participants: Vec::new(),
            users: Vec::new(),
            categories: Vec::new(),
            messages: Vec::new(),
            notifications: Vec::new(),
            payments: Vec::new(),
            transactions: Vec::new(),
            sessions: Vec::new(),
            next_procurement_id: 1,
            next_participant_id: 1,
            next_user_id: 1,
            next_category_id: 1,
            next_message_id: 1,
            next_notification_id: 1,
            next_payment_id: 1,
            next_transaction_id: 1,
            next_session_id: 1,
        }
    }

    // ---- exec lookups ----

    /// The position of the procurement with the given id, when present.
    pub fn find_procurement(&self, id: i32) -> (r: Option<usize>)
        requires
            self.wf(),
        ensures
            match r {
                Option::Some(i) => i < self.procurements@.len()
                    && self.procurements@[i as int].id == id && self.has_procurement(id)
                    && self.procurement_index(id) == i as int,
                Option::None => !self.has_procurement(id),
            },
    {
        let n = self.procurements.len();
        let mut i: usize = 0;
        while i < n
            invariant
                i <= n,
                n == self.procurements@.len(),
                forall|j: int| 0 <= j < i ==> (#[trigger] self.procurements@[j]).id != id,
            decreases n - i,
        {
            if self.procurements[i].id == id {
                proof {
                    assert forall|k: int|
                        0 <= k < self.procurements@.len() && (
                        #[trigger] self.procurements@[k]).id == id implies k == i as int by {
                        if k != i as int {
                            let a = if k < i as int { k } else { i as int };
                            let b = if k < i as int { i as int } else { k };
                            assert(self.procurement_ids()[a] == self.procurements@[a].id);
                            assert(self.procurement_ids()[b] == self.procurements@[b].id);
                            assert(self.procurement_ids()[a] != self.procurement_ids()[b]);
                        }
                    }
                }
                return Option::Some(i);
            }
            i += 1;
        }
        Option::None
    }

    /// The position of the user with the given id, when present.
    pub fn find_user(&self, id: i32) -> (r: Option<usize>)
        requires
            self.wf(),
        ensures
            match r {
                Option::Some(i) => i < self.users@.len() && self.users@[i as int].id == id
                    && self.has_user(id) && self.user_index(id) == i as int,
                Option::None => !self.has_user(id),
            },
    {
        let n = self.users.len();
        let mut i: usize = 0;
        while i < n
            invariant
                i <= n,
                n == self.users@.len(),
                forall|j: int| 0 <= j < i ==> (#[trigger] self.users@[j]).id != id,
            decreases n - i,
        {
            if self.users[i].id == id {
                proof {
                    assert forall|k: int|
                        0 <= k < self.users@.len() && (#[trigger] self.users@[k]).id == id
                        implies k == i as int by {
                        if k != i as int {
                            let a = if k < i as int { k } else { i as int };
                            let b = if k < i as int { i as int } else { k };
                            assert(self.user_ids()[a] == self.users@[a].id);
                            assert(self.user_ids()[b] == self.users@[b].id);
                            assert(self.user_ids()[a] != self.user_ids()[b]);
                        }
                    }
                }
                return Option::Some(i);
            }
            i += 1;
        }
        Option::None
    }

    /// The position of the participant row of (procurement, user), when
    /// present.
    pub fn find_participant(&self, pid: i32, uid: i32) -> (r: Option<usize>)
        requires
            self.wf(),
        ensures
            match r {
                Option::Some(i) => i < self.participants@.len()
                    && self.participants@[i as int].procurement_id == pid
                    && self.participants@[i as int].user_id == uid && self.has_participant(pid, uid)
                    && self.participant_index(pid, uid) == i as int,
                Option::None => !self.has_participant(pid, uid),
            },
    {
        let n = self.participants.len();
        let mut i: usize = 0;
        while i < n
            invariant
                i <= n,
                n == self.participants@.len(),
                forall|j: int|
                    0 <= j < i ==> !((#[trigger] self.participants@[j]).procurement_id == pid
                        && self.participants@[j].user_id == uid),
            decreases n - i,
        {
            if self.participants[i].procurement_id == pid && self.participants[i].user_id == uid {
                proof {
                    assert(forall|k: int|
                        0 <= k < self.participants@.len() && (
                        #[trigger] self.participants@[k]).procurement_id == pid
                            && self.participants@[k].user_id == uid ==> k == i as int);
                }
                return Option::Some(i);
            }
            i += 1;
        }
        Option::None
    }

    /// The position of a user's dialog-state row, when present.
    pub fn find_session(&self, uid: i32) -> (r: Option<usize>)
        requires
            self.wf(),
        ensures
            match r {
                Option::Some(i) => i < self.sessions@.len() && self.sessions@[i as int].user_id
                    == uid && self.has_session(uid) && self.session_index(uid) == i as int,
                Option::None => !self.has_session(uid),
            },
    {
        let n = self.sessions.len();
        let mut i: usize = 0;
        while i < n
            invariant
                i <= n,
                n == self.sessions@.len(),
                forall|j: int| 0 <= j < i ==> (#[trigger] self.sessions@[j]).user_id != uid,
            decreases n - i,
        {
            if self.sessions[i].user_id == uid {
                proof {
                    assert(forall|k: int|
                        0 <= k < self.sessions@.len() && (#[trigger] self.sessions@[k]).user_id
                            == uid ==> k == i as int);
                }
                return Option::Some(i);
            }
            i += 1;
        }
        Option::None
    }

    /// The position of the payment with the given id, when present.
    pub fn find_payment(&self, id: i32) -> (r: Option<usize>)
        requires
            self.wf(),
        ensures
            match r {
                Option::Some(i) => i < self.payments@.len() && self.payments@[i as int].id == id
                    && self.has_payment(id) && self.payment_index(id) == i as int,
                Option::None => !self.has_payment(id),
            },
    {
        let n = self.payments.len();
        let mut i: usize = 0;
        while i < n
            invariant
                i <= n,
                n == self.payments@.len(),
                forall|j: int| 0 <= j < i ==> (#[trigger] self.payments@[j]).id != id,
            decreases n - i,
        {
            if self.payments[i].id == id {
                proof {
                    assert forall|k: int|
                        0 <= k < self.payments@.len() && (#[trigger] self.payments@[k]).id == id
                        implies k == i as int by {
                        if k != i as int {
                            let a = if k < i as int { k } else { i as int };
                            let b = if k < i as int { i as int } else { k };
                            assert(self.payment_ids()[a] == self.payments@[a].id);
                            assert(self.payment_ids()[b] == self.payments@[b].id);
                            assert(self.payment_ids()[a] != self.payment_ids()[b]);
                        }
                    }
                }
                return Option::Some(i);
            }
            i += 1;
        }
        Option::None
    }

    /// Counts the active participant rows of procurement `pid`.
    pub fn count_active(&self, pid: i32) -> (c: i64)
        requires
            self.wf(),
        ensures
            c as int == active_count(self.participants@, pid),
            c >= 0,
    {
        let n = self.participants.len();
        let mut c: i64 = 0;
        let mut i: usize = 0;
        proof {
            assert(self.participants@.subrange(0, 0) =~= Seq::<Participant>::empty());
        }
        while i < n
            invariant
                i <= n,
                n == self.participants@.len(),
                n < 0x7fff_ffff,
                0 <= c as int <= i as int,
                c as int == active_count(self.participants@.subrange(0, i as int), pid),
            decreases n - i,
        {
            proof {
                assert(self.participants@.subrange(0, i as int + 1).drop_last()
                    =~= self.participants@.subrange(0, i as int));
                assert(self.participants@.subrange(0, i as int + 1).last()
                    == self.participants@[i as int]);
            }
            if self.participants[i].procurement_id == pid && self.participants[i].is_active {
                c += 1;
            }
            i += 1;
        }
        proof {
            assert(self.participants@.subrange(0, n as int) =~= self.participants@);
        }
        c
    }
}

/// Appending a row changes `active_sum` by exactly that row's
/// contribution.
pub proof fn lemma_active_sum_push(parts: Seq<Participant>, x: Participant, pid: i32)
    ensures
        active_sum(parts.push(x), pid) == active_sum(parts, pid) + share_of(x, pid),
{
    assert(parts.push(x).drop_last() =~= parts);
    assert(parts.push(x).last() == x);
}

/// Replacing the row at `k` changes `active_sum` by the difference of the
/// two rows' contributions.
pub proof fn lemma_active_sum_update(parts: Seq<Participant>, k: int, x: Participant, pid: i32)
    requires
        0 <= k < parts.len(),
    ensures
        active_sum(parts.update(k, x), pid) == active_sum(parts, pid) - share_of(parts[k], pid)
            + share_of(x, pid),
    decreases parts.len(),
{
    let updated = parts.update(k, x);
    if k == parts.len() - 1 {
        assert(updated.drop_last() =~= parts.drop_last());
        assert(updated.last() == x);
        assert(parts.last() == parts[k]);
    } else {
        assert(updated.drop_last() =~= parts.drop_last().update(k, x));
        assert(updated.last() == parts.last());
        lemma_active_sum_update(parts.drop_last(), k, x, pid);
        assert(parts.drop_last()[k] == parts[k]);
    }
}

/// A procurement no participant row points at has an empty aggregate.
pub proof fn lemma_active_sum_absent(parts: Seq<Participant>, pid: i32)
    requires
        forall|i: int| 0 <= i < parts.len() ==> (#[trigger] parts[i]).procurement_id != pid,
    ensures
        active_sum(parts, pid) == 0,
    decreases parts.len(),
{
    if parts.len() > 0 {
        lemma_active_sum_absent(parts.drop_last(), pid);
    }
}

/// The procurement and participant tables of `a` are those of `b`.
pub open spec fn eq_procurement_side(a: Store, b: Store) -> bool {
    &&& a.procurements@ == b.procurements@
    &&& a.participants@ == b.participants@
    &&& a.next_procurement_id == b.next_procurement_id
    &&& a.next_participant_id == b.next_participant_id
}

/// The user table of `a` is that of `b`.
pub open spec fn eq_users(a: Store, b: Store) -> bool {
    &&& a.users@ == b.users@
    &&& a.next_user_id == b.next_user_id
}

/// The category table of `a` is that of `b`.
pub open spec fn eq_categories(a: Store, b: Store) -> bool {
    &&& a.categories@ == b.categories@
    &&& a.next_category_id == b.next_category_id
}

/// The chat tables of `a` are those of `b`.
pub open spec fn eq_chat(a: Store, b: Store) -> bool {
    &&& a.messages@ == b.messages@
    &&& a.notifications@ == b.notifications@
    &&& a.next_message_id == b.next_message_id
    &&& a.next_notification_id == b.next_notification_id
}

/// The payment and ledger tables of `a` are those of `b`.
pub open spec fn eq_money_side(a: Store, b: Store) -> bool {
    &&& a.payments@ == b.payments@
    &&& a.transactions@ == b.transactions@
    &&& a.next_payment_id == b.next_payment_id
    &&& a.next_transaction_id == b.next_transaction_id
}

/// The session table of `a` is that of `b`.
pub open spec fn eq_sessions(a: Store, b: Store) -> bool {
    &&& a.sessions@ == b.sessions@
    &&& a.next_session_id == b.next_session_id
}

/// Appending a ledger entry changes `deposit_sum` by its amount exactly
/// when it is a deposit of that user.
pub proof fn lemma_deposit_sum_push(ts: Seq<Transaction>, x: Transaction, uid: i32)
    ensures
        deposit_sum(ts.push(x), uid) == deposit_sum(ts, uid) + (
        if x.user_id == uid && x.transaction_type@ == "deposit"@ {
            x.amount as int
        } else {
            0int
        }),
{
    assert(ts.push(x).drop_last() =~= ts);
    assert(ts.push(x).last() == x);
}

/// Appending a ledger entry changes `spent_sum` by its absolute amount
/// exactly when it is a negative entry of that user.
pub proof fn lemma_spent_sum_push(ts: Seq<Transaction>, x: Transaction, uid: i32)
    ensures
        spent_sum(ts.push(x), uid) == spent_sum(ts, uid) + (
        if x.user_id == uid && x.amount < 0 {
            -(x.amount as int)
        } else {
            0int
        }),
{
    assert(ts.push(x).drop_last() =~= ts);
    assert(ts.push(x).last() == x);
}

} // verus!
