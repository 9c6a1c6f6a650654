//! The procurement engine: creation, single-record fetch, joining and
//! leaving. Joining inserts the participant row and recomputes the cached
//! aggregate in one step, so the store invariant — `current_amount` equals
//! the exact sum over active participants — holds after every operation.

use vstd::prelude::*;
use crate::errors::AppError;
use crate::present::{base_of, derive_response, is_response_of};
use crate::records::{
    Category, CreateProcurement, Instant, JoinProcurement, Money, Participant, Procurement,
    ProcurementQuery, ProcurementResponse,
};
use crate::store::{
    active_count, active_sum, eq_categories, eq_chat, eq_money_side, eq_procurement_side,
    eq_sessions, eq_users, lemma_active_sum_absent, lemma_active_sum_push,
    lemma_active_sum_update, share_of, Store,
};
use crate::text::{
    all_space, lemma_lex_le_total, lemma_lex_le_transitive, lex_le, str_eq, str_is_blank,
    str_lex_le,
};

verus! {

/// The procurement `p` with its cached amount and update instant replaced.
pub open spec fn with_current(p: Procurement, current: Money, updated_at: Instant) -> Procurement {
    Procurement { current_amount: current, updated_at: updated_at, ..p }
}

/// The error a join is refused with, checked in this order; `None` when
/// the join is owed success.
pub open spec fn join_error(s: Store, pid: i32, req: JoinProcurement) -> Option<AppError> {
    if req.user_id is None {
        Option::Some(AppError::MissingUserId)
    } else if !s.has_procurement(pid) {
        Option::Some(AppError::NotFound)
    } else if s.procurement_by_id(pid).status@ != "active"@ {
        Option::Some(AppError::ProcurementNotActive)
    } else if s.has_participant(pid, req.user_id->Some_0) {
        Option::Some(AppError::AlreadyJoined)
    } else if s.next_participant_id == i32::MAX {
        Option::Some(AppError::StorageFull)
    } else if !money_in_range(
        s.procurement_by_id(pid).current_amount as int + req.amount as int,
    ) {
        Option::Some(AppError::AmountOutOfRange)
    } else {
        Option::None
    }
}

/// Whether an exact amount fits the representable range of minor units.
pub open spec fn money_in_range(x: int) -> bool {
    i64::MIN <= x <= i64::MAX
}

/// The error a creation is refused with, checked in this order; `None`
/// when creation is owed success.
pub open spec fn create_procurement_error(s: Store, req: CreateProcurement) -> Option<AppError> {
    if all_space(req.title@) {
        Option::Some(AppError::EmptyTitle)
    } else if all_space(req.description@) {
        Option::Some(AppError::EmptyDescription)
    } else if req.target_amount <= 0 {
        Option::Some(AppError::NonPositiveTarget)
    } else if s.next_procurement_id == i32::MAX {
        Option::Some(AppError::StorageFull)
    } else {
        Option::None
    }
}

impl Store {
    /// Creates a procurement: title and description must not be blank, the
    /// target must be positive; defaults fill the optional fields and the
    /// new campaign starts with nothing collected.
    pub fn create_procurement(&mut self, req: &CreateProcurement, now: Instant) -> (r: Result<
        Procurement,
        AppError,
    >)
        requires
            old(self).wf(),
        ensures
            final(self).wf(),
            match r {
                Result::Err(e) => {
                    &&& Option::Some(e) == create_procurement_error(*old(self), *req)
                    &&& *final(self) == *old(self)
                },
                Result::Ok(p) => {
                    &&& create_procurement_error(*old(self), *req) is None
                    &&& p.id == old(self).next_procurement_id
                    &&& p.title == req.title
                    &&& p.description == req.description
                    &&& p.category_id == req.category_id
                    &&& p.organizer_id == req.organizer_id
                    &&& p.supplier_id is None
                    &&& p.city == req.city
                    &&& p.delivery_address@ == (match req.delivery_address {
                        Option::Some(d) => d@,
                        Option::None => Seq::<char>::empty(),
                    })
                    &&& p.target_amount == req.target_amount
                    &&& p.current_amount == 0
                    &&& p.stop_at_amount == req.stop_at_amount
                    &&& p.unit@ == (match req.unit {
                        Option::Some(u) => u@,
                        Option::None => "units"@,
                    })
                    &&& p.price_per_unit == req.price_per_unit
                    &&& p.status@ == (match req.status {
                        Option::Some(st) => st@,
                        Option::None => "draft"@,
                    })
                    &&& p.deadline == req.deadline
                    &&& p.payment_deadline == req.payment_deadline
                    &&& p.image_url@ == (match req.image_url {
                        Option::Some(u) => u@,
                        Option::None => Seq::<char>::empty(),
                    })
                    &&& !p.is_featured
                    &&& p.created_at == now
                    &&& p.updated_at == now
                    &&& final(self).procurements@ =~= old(self).procurements@.push(p)
                    &&& final(self).next_procurement_id == old(self).next_procurement_id + 1
                    &&& final(self).participants@ == old(self).participants@
                    &&& final(self).next_participant_id == old(self).next_participant_id
                    &&& eq_users(*final(self), *old(self))
                    &&& eq_categories(*final(self), *old(self))
                    &&& eq_chat(*final(self), *old(self))
                    &&& eq_money_side(*final(self), *old(self))
                    &&& eq_sessions(*final(self), *old(self))
                },
            },
    {
        if str_is_blank(req.title.as_str()) {
            return Result::Err(AppError::EmptyTitle);
        }
        if str_is_blank(req.description.as_str()) {
            return Result::Err(AppError::EmptyDescription);
        }
        if req.target_amount <= 0 {
            return Result::Err(AppError::NonPositiveTarget);
        }
        if self.next_procurement_id == i32::MAX {
            return Result::Err(AppError::StorageFull);
        }
        let id = self.next_procurement_id;
        let p = Procurement {
            id,
            title: req.title.clone(),
            description: req.description.clone(),
            category_id: req.category_id,
            organizer_id: req.organizer_id,
            supplier_id: Option::None,
            city: req.city.clone(),
            delivery_address: match &req.delivery_address {
                Option::Some(d) => d.clone(),
                Option::None => String::new(),
            },
            target_amount: req.target_amount,
            current_amount: 0,
            stop_at_amount: req.stop_at_amount,
            unit: match &req.unit {
                Option::Some(u) => u.clone(),
                Option::None => "units".to_owned(),
            },
            price_per_unit: req.price_per_unit,
            status: match &req.status {
                Option::Some(st) => st.clone(),
                Option::None => "draft".to_owned(),
            },
            deadline: req.deadline,
            payment_deadline: req.payment_deadline,
            image_url: match &req.image_url {
                Option::Some(u) => u.clone(),
                Option::None => String::new(),
            },
            is_featured: false,
            created_at: now,
            updated_at: now,
        };
        let result = p.duplicate();
        self.procurements.push(p);
        self.next_procurement_id = id + 1;
        proof {
            let oldp = old(self).procurements@;
            let newp = self.procurements@;
            assert(self.procurement_ids() =~= old(self).procurement_ids().push(id));
            assert(forall|k: int|
                0 <= k < newp.len() - 1 ==> #[trigger] newp[k] == oldp[k]);
            assert forall|i: int| 0 <= i < self.participants@.len() implies self.has_procurement(
                (#[trigger] self.participants@[i]).procurement_id) by {
                let pid = self.participants@[i].procurement_id;
                assert(old(self).has_procurement(pid));
                let w = old(self).procurement_index(pid);
                assert(newp[w].id == pid);
            }
            assert forall|k: int| 0 <= k < newp.len() implies (
            #[trigger] newp[k]).current_amount as int == active_sum(
                self.participants@,
                newp[k].id,
            ) by {
                if k == newp.len() - 1 {
                    assert forall|i: int| 0 <= i < self.participants@.len() implies (
                    #[trigger] self.participants@[i]).procurement_id != id by {
                        let pid = self.participants@[i].procurement_id;
                        assert(old(self).has_procurement(pid));
                        let w = old(self).procurement_index(pid);
                        assert(old(self).procurement_ids()[w] == pid);
                        assert(1 <= pid < old(self).next_procurement_id);
                    }
                    lemma_active_sum_absent(self.participants@, id);
                }
            }
        }
        Result::Ok(result)
    }

    /// Fetches one procurement with its derived presentation fields; the
    /// participant count is the number of its active rows.
    pub fn get_procurement(&self, id: i32, now: Instant) -> (r: Result<
        ProcurementResponse,
        AppError,
    >)
        requires
            self.wf(),
        ensures
            match r {
                Result::Err(e) => e == AppError::NotFound && !self.has_procurement(id),
                Result::Ok(resp) => self.has_procurement(id) && is_response_of(
                    resp,
                    self.procurement_by_id(id),
                    active_count(self.participants@, id) as i64,
                    now as int,
                ),
            },
    {
        match self.find_procurement(id) {
            Option::Some(i) => {
                let count = self.count_active(id);
                let p = self.procurements[i].duplicate();
                Result::Ok(derive_response(p, count, now))
            },
            Option::None => Result::Err(AppError::NotFound),
        }
    }

    /// Joins a user to a procurement: inserts the participant row (amount
    /// as given, quantity defaulting to one, notes defaulting to empty)
    /// and recomputes the cached aggregate, atomically. A second join by
    /// the same user is refused as a conflict and changes nothing.
    pub fn join_procurement(&mut self, procurement_id: i32, req: &JoinProcurement, now: Instant) -> (r: Result<
        Participant,
        AppError,
    >)
        requires
            old(self).wf(),
        ensures
            final(self).wf(),
            match r {
                Result::Err(e) => {
                    &&& Option::Some(e) == join_error(*old(self), procurement_id, *req)
                    &&& *final(self) == *old(self)
                },
                Result::Ok(p) => {
                    &&& join_error(*old(self), procurement_id, *req) is None
                    &&& p.id == old(self).next_participant_id
                    &&& p.procurement_id == procurement_id
                    &&& Option::Some(p.user_id) == req.user_id
                    &&& p.quantity == (match req.quantity {
                        Option::Some(q) => q,
                        Option::None => 1int as Money,
                    })
                    &&& p.amount == req.amount
                    &&& p.status@ == Seq::<char>::empty()
                    &&& p.notes@ == (match req.notes {
                        Option::Some(n) => n@,
                        Option::None => Seq::<char>::empty(),
                    })
                    &&& p.is_active
                    &&& p.created_at == now
                    &&& p.updated_at == now
                    &&& final(self).participants@ =~= old(self).participants@.push(p)
                    &&& final(self).next_participant_id == old(self).next_participant_id + 1
                    &&& final(self).procurements@ =~= old(self).procurements@.update(
                        old(self).procurement_index(procurement_id),
                        with_current(
                            old(self).procurement_by_id(procurement_id),
                            (old(self).procurement_by_id(procurement_id).current_amount
                                + req.amount) as Money,
                            now,
                        ),
                    )
                    &&& final(self).next_procurement_id == old(self).next_procurement_id
                    &&& eq_users(*final(self), *old(self))
                    &&& eq_categories(*final(self), *old(self))
                    &&& eq_chat(*final(self), *old(self))
                    &&& eq_money_side(*final(self), *old(self))
                    &&& eq_sessions(*final(self), *old(self))
                },
            },
    {
        let uid = match req.user_id {
            Option::Some(u) => u,
            Option::None => {
                return Result::Err(AppError::MissingUserId);
            },
        };
        let pi = match self.find_procurement(procurement_id) {
            Option::Some(i) => i,
            Option::None => {
                return Result::Err(AppError::NotFound);
            },
        };
        if !str_eq(self.procurements[pi].status.as_str(), "active") {
            return Result::Err(AppError::ProcurementNotActive);
        }
        match self.find_participant(procurement_id, uid) {
            Option::Some(_) => {
                return Result::Err(AppError::AlreadyJoined);
            },
            Option::None => {},
        }
        if self.next_participant_id == i32::MAX {
            return Result::Err(AppError::StorageFull);
        }
        let current = self.procurements[pi].current_amount;
        let new_current = match current.checked_add(req.amount) {
            Option::Some(c) => c,
            Option::None => {
                return Result::Err(AppError::AmountOutOfRange);
            },
        };
        let id = self.next_participant_id;
        let row = Participant {
            id,
            procurement_id,
            user_id: uid,
            quantity: match req.quantity {
                Option::Some(q) => q,
                Option::None => 1,
            },
            amount: req.amount,
            status: String::new(),
            notes: match &req.notes {
                Option::Some(n) => n.clone(),
                Option::None => String::new(),
            },
            is_active: true,
            created_at: now,
            updated_at: now,
        };
        let result = row.duplicate();
        self.participants.push(row);
        self.next_participant_id = id + 1;
        self.procurements[pi].current_amount = new_current;
        self.procurements[pi].updated_at = now;
        proof {
            let oldparts = old(self).participants@;
            let newparts = self.participants@;
            let newrow = newparts.last();
            let oldprocs = old(self).procurements@;
            let newprocs = self.procurements@;
            assert(self.participant_ids() =~= old(self).participant_ids().push(id));
            assert(self.procurement_ids() =~= old(self).procurement_ids());
            assert(newprocs =~= oldprocs.update(
                pi as int,
                with_current(oldprocs[pi as int], new_current, now),
            ));
            // every old participant row still points at an existing procurement
            assert forall|i: int| 0 <= i < newparts.len() implies self.has_procurement(
                (#[trigger] newparts[i]).procurement_id) by {
                if i < newparts.len() - 1 {
                    let pid = oldparts[i].procurement_id;
                    assert(old(self).has_procurement(pid));
                    let w = old(self).procurement_index(pid);
                    assert(newprocs[w].id == pid);
                } else {
                    assert(newprocs[pi as int].id == procurement_id);
                }
            }
            // the aggregate of every procurement is still the exact sum
            assert forall|k: int| 0 <= k < newprocs.len() implies (
            #[trigger] newprocs[k]).current_amount as int == active_sum(
                newparts,
                newprocs[k].id,
            ) by {
                lemma_active_sum_push(oldparts, newrow, oldprocs[k].id);
                if k == pi as int {
                    assert(share_of(newrow, oldprocs[k].id) == req.amount as int);
                } else {
                    assert(oldprocs[k].id != procurement_id) by {
                        assert(old(self).procurement_ids()[k] == oldprocs[k].id);
                        assert(old(self).procurement_ids()[pi as int] == procurement_id);
                    }
                    assert(share_of(newrow, oldprocs[k].id) == 0);
                }
            }
            assert(old(self).procurement_index(procurement_id) == pi as int);
        }
        Result::Ok(result)
    }

    /// Marks a user's participant row inactive and recomputes the cached
    /// aggregate, symmetric to joining. The row stays; leaving twice keeps
    /// the aggregate unchanged the second time.
    pub fn leave_procurement(&mut self, procurement_id: i32, user_id: i32, now: Instant) -> (r: Result<
        (),
        AppError,
    >)
        requires
            old(self).wf(),
        ensures
            final(self).wf(),
            match r {
                Result::Err(e) => {
                    &&& *final(self) == *old(self)
                    &&& (e == AppError::NotFound || e == AppError::AmountOutOfRange)
                    &&& (e == AppError::NotFound <==> !(old(self).has_procurement(procurement_id)
                        && old(self).has_participant(procurement_id, user_id)))
                    &&& (e == AppError::AmountOutOfRange <==> ({
                        let k = old(self).participant_index(procurement_id, user_id);
                        let pix = old(self).procurement_index(procurement_id);
                        &&& old(self).has_procurement(procurement_id)
                        &&& old(self).has_participant(procurement_id, user_id)
                        &&& old(self).participants@[k].is_active
                        &&& !money_in_range(
                            old(self).procurements@[pix].current_amount
                                - old(self).participants@[k].amount,
                        )
                    }))
                },
                Result::Ok(u) => {
                    &&& old(self).has_procurement(procurement_id)
                    &&& old(self).has_participant(procurement_id, user_id)
                    &&& {
                        let k = old(self).participant_index(procurement_id, user_id);
                        let oldrow = old(self).participants@[k];
                        let pix = old(self).procurement_index(procurement_id);
                        let oldproc = old(self).procurements@[pix];
                        let delta: int = if oldrow.is_active {
                            oldrow.amount as int
                        } else {
                            0
                        };
                        &&& final(self).participants@ =~= old(self).participants@.update(
                            k,
                            Participant { is_active: false, updated_at: now, ..oldrow },
                        )
                        &&& final(self).procurements@ =~= old(self).procurements@.update(
                            pix,
                            with_current(oldproc, (oldproc.current_amount - delta) as Money, now),
                        )
                    }
                    &&& final(self).next_procurement_id == old(self).next_procurement_id
                    &&& final(self).next_participant_id == old(self).next_participant_id
                    &&& eq_users(*final(self), *old(self))
                    &&& eq_categories(*final(self), *old(self))
                    &&& eq_chat(*final(self), *old(self))
                    &&& eq_money_side(*final(self), *old(self))
                    &&& eq_sessions(*final(self), *old(self))
                },
            },
    {
        let pi = match self.find_procurement(procurement_id) {
            Option::Some(i) => i,
            Option::None => {
                return Result::Err(AppError::NotFound);
            },
        };
        let k = match self.find_participant(procurement_id, user_id) {
            Option::Some(i) => i,
            Option::None => {
                return Result::Err(AppError::NotFound);
            },
        };
        let was_active = self.participants[k].is_active;
        let amount = self.participants[k].amount;
        let current = self.procurements[pi].current_amount;
        let new_current = if was_active {
            match current.checked_sub(amount) {
                Option::Some(c) => c,
                Option::None => {
                    return Result::Err(AppError::AmountOutOfRange);
                },
            }
        } else {
            current
        };
        self.participants[k].is_active = false;
        self.participants[k].updated_at = now;
        self.procurements[pi].current_amount = new_current;
        self.procurements[pi].updated_at = now;
        proof {
            let oldparts = old(self).participants@;
            let newparts = self.participants@;
            let oldrow = oldparts[k as int];
            let newrow = newparts[k as int];
            let oldprocs = old(self).procurements@;
            let newprocs = self.procurements@;
            assert(newparts =~= oldparts.update(
                k as int,
                Participant { is_active: false, updated_at: now, ..oldrow },
            ));
            assert(newprocs =~= oldprocs.update(
                pi as int,
                with_current(oldprocs[pi as int], new_current, now),
            ));
            assert(self.participant_ids() =~= old(self).participant_ids());
            assert(self.procurement_ids() =~= old(self).procurement_ids());
            assert forall|i: int| 0 <= i < newparts.len() implies self.has_procurement(
                (#[trigger] newparts[i]).procurement_id) by {
                let pid = oldparts[i].procurement_id;
                assert(old(self).has_procurement(pid));
                let w = old(self).procurement_index(pid);
                assert(newprocs[w].id == pid);
                assert(newparts[i].procurement_id == pid);
            }
            assert forall|j: int| 0 <= j < newprocs.len() implies (
            #[trigger] newprocs[j]).current_amount as int == active_sum(
                newparts,
                newprocs[j].id,
            ) by {
                lemma_active_sum_update(oldparts, k as int, newrow, oldprocs[j].id);
                if j == pi as int {
                    assert(share_of(oldrow, procurement_id) == (if oldrow.is_active {
                        oldrow.amount as int
                    } else {
                        0int
                    }));
                    assert(share_of(newrow, procurement_id) == 0);
                } else {
                    assert(oldprocs[j].id != procurement_id) by {
                        assert(old(self).procurement_ids()[j] == oldprocs[j].id);
                        assert(old(self).procurement_ids()[pi as int] == procurement_id);
                    }
                    assert(share_of(oldrow, oldprocs[j].id) == 0);
                    assert(share_of(newrow, oldprocs[j].id) == 0);
                }
            }
        }
        Result::Ok(())
    }

    /// Inserts a category row: the gateway primitive behind catalogue
    /// seeding.
    pub fn add_category(
        &mut self,
        name: String,
        description: String,
        parent_id: Option<i32>,
        icon: String,
        is_active: bool,
        now: Instant,
    ) -> (r: Result<Category, AppError>)
        requires
            old(self).wf(),
        ensures
            final(self).wf(),
            match r {
                Result::Err(e) => {
                    &&& e == AppError::StorageFull
                    &&& old(self).next_category_id == i32::MAX
                    &&& *final(self) == *old(self)
                },
                Result::Ok(c) => {
                    &&& old(self).next_category_id < i32::MAX
                    &&& c.id == old(self).next_category_id
                    &&& c.name == name
                    &&& c.description == description
                    &&& c.parent_id == parent_id
                    &&& c.icon == icon
                    &&& c.is_active == is_active
                    &&& c.created_at == now
                    &&& final(self).categories@ =~= old(self).categories@.push(c)
                    &&& final(self).next_category_id == old(self).next_category_id + 1
                    &&& eq_procurement_side(*final(self), *old(self))
                    &&& eq_users(*final(self), *old(self))
                    &&& eq_chat(*final(self), *old(self))
                    &&& eq_money_side(*final(self), *old(self))
                    &&& eq_sessions(*final(self), *old(self))
                },
            },
    {
        if self.next_category_id == i32::MAX {
            return Result::Err(AppError::StorageFull);
        }
        let id = self.next_category_id;
        let c = Category {
            id,
            name,
            description,
            parent_id,
            icon,
            is_active,
            created_at: now,
        };
        let result = c.duplicate();
        self.categories.push(c);
        self.next_category_id = id + 1;
        proof {
            assert(self.category_ids() =~= old(self).category_ids().push(id));
        }
        Result::Ok(result)
    }
}


/// Whether a procurement passes the conjunction of the optional filters.
pub open spec fn proc_matches(p: Procurement, status: Option<String>, city: Option<String>) -> bool {
    &&& match status {
        Option::Some(st) => p.status@ == st@,
        Option::None => true,
    }
    &&& match city {
        Option::Some(c) => p.city@ == c@,
        Option::None => true,
    }
}

/// The procurements passing the filters, in stored order.
pub open spec fn proc_filter(
    s: Seq<Procurement>,
    status: Option<String>,
    city: Option<String>,
) -> Seq<Procurement> {
    s.filter(|p: Procurement| proc_matches(p, status, city))
}

/// The stored procurements a sequence of responses presents.
pub open spec fn bases_of(s: Seq<ProcurementResponse>) -> Seq<Procurement> {
    s.map_values(|x: ProcurementResponse| base_of(x))
}

/// The active categories, in stored order.
pub open spec fn active_categories(s: Seq<Category>) -> Seq<Category> {
    s.filter(|c: Category| c.is_active)
}

/// Sorts procurements by creation instant, newest first.
fn sort_procurements_desc(input: Vec<Procurement>) -> (r: Vec<Procurement>)
    ensures
        r@.len() == input@.len(),
        r@.to_multiset() == input@.to_multiset(),
        forall|i: int, j: int|
            0 <= i < j < r@.len() ==> r@[i].created_at >= r@[j].created_at,
{
    broadcast use vstd::seq_lib::group_to_multiset_ensures;

    let mut rem = input;
    let ghost orig = rem@;
    let mut out: Vec<Procurement> = Vec::new();
    proof {
        assert(out@.to_multiset().add(rem@.to_multiset()) =~= orig.to_multiset());
    }
    while rem.len() > 0
        invariant
            out@.len() + rem@.len() == orig.len(),
            out@.to_multiset().add(rem@.to_multiset()) == orig.to_multiset(),
            forall|i: int, j: int|
                0 <= i < j < out@.len() ==> out@[i].created_at >= out@[j].created_at,
            forall|i: int, j: int|
                0 <= i < out@.len() && 0 <= j < rem@.len() ==> out@[i].created_at
                    >= rem@[j].created_at,
        decreases rem@.len(),
    {
        let mut m: usize = 0;
        let mut i: usize = 1;
        while i < rem.len()
            invariant
                m < i <= rem@.len(),
                forall|j: int| 0 <= j < i ==> rem@[m as int].created_at >= rem@[j].created_at,
            decreases rem@.len() - i,
        {
            if rem[i].created_at > rem[m].created_at {
                m = i;
            }
            i += 1;
        }
        let ghost rem_before = rem@;
        let ghost out_before = out@;
        let x = rem.remove(m);
        out.push(x);
        proof {
            assert(rem@.to_multiset() =~= rem_before.to_multiset().remove(x));
            assert(out@.to_multiset() =~= out_before.to_multiset().insert(x));
            assert(rem_before.to_multiset().count(x) > 0) by {
                assert(rem_before[m as int] == x);
                assert(rem_before.contains(x));
            }
            assert(out@.to_multiset().add(rem@.to_multiset()) =~= orig.to_multiset());
            assert(forall|j: int|
                0 <= j < rem@.len() ==> #[trigger] rem@[j] == (if j < m {
                    rem_before[j]
                } else {
                    rem_before[j + 1]
                }));
        }
    }
    out
}

/// Sorts categories by name, code-point lexicographic, ascending.
fn sort_categories_by_name(input: Vec<Category>) -> (r: Vec<Category>)
    ensures
        r@.len() == input@.len(),
        r@.to_multiset() == input@.to_multiset(),
        forall|i: int, j: int| 0 <= i < j < r@.len() ==> lex_le(r@[i].name@, r@[j].name@),
{
    broadcast use vstd::seq_lib::group_to_multiset_ensures;

    let mut rem = input;
    let ghost orig = rem@;
    let mut out: Vec<Category> = Vec::new();
    proof {
        assert(out@.to_multiset().add(rem@.to_multiset()) =~= orig.to_multiset());
    }
    while rem.len() > 0
        invariant
            out@.len() + rem@.len() == orig.len(),
            out@.to_multiset().add(rem@.to_multiset()) == orig.to_multiset(),
            forall|i: int, j: int|
                0 <= i < j < out@.len() ==> lex_le(out@[i].name@, out@[j].name@),
            forall|i: int, j: int|
                0 <= i < out@.len() && 0 <= j < rem@.len() ==> lex_le(
                    out@[i].name@,
                    rem@[j].name@,
                ),
        decreases rem@.len(),
    {
        let mut m: usize = 0;
        let mut i: usize = 1;
        proof {
            lemma_lex_le_total(rem@[0].name@, rem@[0].name@);
        }
        while i < rem.len()
            invariant
                m < i <= rem@.len(),
                rem@.len() > 0,
                forall|j: int| 0 <= j < i ==> lex_le(rem@[m as int].name@, rem@[j].name@),
            decreases rem@.len() - i,
        {
            let cur = m;
            if !str_lex_le(rem[cur].name.as_str(), rem[i].name.as_str()) {
                proof {
                    lemma_lex_le_total(rem@[cur as int].name@, rem@[i as int].name@);
                    assert forall|j: int| 0 <= j < i as int + 1 implies lex_le(
                        rem@[i as int].name@,
                        rem@[j].name@,
                    ) by {
                        if j < i as int {
                            lemma_lex_le_transitive(
                                rem@[i as int].name@,
                                rem@[cur as int].name@,
                                rem@[j].name@,
                            );
                        } else {
                            lemma_lex_le_total(rem@[i as int].name@, rem@[i as int].name@);
                        }
                    }
                }
                m = i;
            }
            i += 1;
        }
        let ghost rem_before = rem@;
        let ghost out_before = out@;
        let x = rem.remove(m);
        out.push(x);
        proof {
            assert(rem@.to_multiset() =~= rem_before.to_multiset().remove(x));
            assert(out@.to_multiset() =~= out_before.to_multiset().insert(x));
            assert(rem_before.to_multiset().count(x) > 0) by {
                assert(rem_before[m as int] == x);
                assert(rem_before.contains(x));
            }
            assert(out@.to_multiset().add(rem@.to_multiset()) =~= orig.to_multiset());
            assert(forall|j: int|
                0 <= j < rem@.len() ==> #[trigger] rem@[j] == (if j < m {
                    rem_before[j]
                } else {
                    rem_before[j + 1]
                }));
        }
    }
    out
}


impl Store {
    /// The procurements passing the filters, in stored order, as copies.
    fn filter_procurements(&self, status: &Option<String>, city: &Option<String>) -> (r: Vec<
        Procurement,
    >)
        ensures
            r@ =~= proc_filter(self.procurements@, *status, *city),
    {
        broadcast use vstd::prelude::Seq::lemma_filter_push;

        let n = self.procurements.len();
        let mut r: Vec<Procurement> = Vec::new();
        let mut i: usize = 0;
        proof {
            assert(self.procurements@.subrange(0, 0) =~= Seq::<Procurement>::empty());
            assert(Seq::<Procurement>::empty().filter(
                |p: Procurement| proc_matches(p, *status, *city),
            ) =~= Seq::<Procurement>::empty());
        }
        while i < n
            invariant
                i <= n,
                n == self.procurements@.len(),
                r@ =~= proc_filter(self.procurements@.subrange(0, i as int), *status, *city),
            decreases n - i,
        {
            proof {
                assert(self.procurements@.subrange(0, i as int + 1)
                    =~= self.procurements@.subrange(0, i as int).push(
                    self.procurements@[i as int],
                ));
            }
            let p = &self.procurements[i];
            let keep = (match status {
                Option::Some(st) => str_eq(p.status.as_str(), st.as_str()),
                Option::None => true,
            }) && (match city {
                Option::Some(c) => str_eq(p.city.as_str(), c.as_str()),
                Option::None => true,
            });
            if keep {
                r.push(p.duplicate());
            }
            i += 1;
        }
        proof {
            assert(self.procurements@.subrange(0, n as int) =~= self.procurements@);
        }
        r
    }

    /// Lists the procurements passing the conjunction of the optional
    /// status and city filters, newest first, each with its derived
    /// presentation fields and active participant count.
    pub fn list_procurements(&self, q: &ProcurementQuery, now: Instant) -> (r: Vec<
        ProcurementResponse,
    >)
        requires
            self.wf(),
        ensures
            r@.len() == proc_filter(self.procurements@, q.status, q.city).len(),
            bases_of(r@).to_multiset() == proc_filter(
                self.procurements@,
                q.status,
                q.city,
            ).to_multiset(),
            forall|i: int, j: int|
                0 <= i < j < r@.len() ==> r@[i].created_at >= r@[j].created_at,
            forall|i: int|
                0 <= i < r@.len() ==> is_response_of(
                    r@[i],
                    base_of(r@[i]),
                    active_count(self.participants@, base_of(r@[i]).id) as i64,
                    now as int,
                ),
    {
        let filtered = self.filter_procurements(&q.status, &q.city);
        let sorted = sort_procurements_desc(filtered);
        let n = sorted.len();
        let mut out: Vec<ProcurementResponse> = Vec::new();
        let mut i: usize = 0;
        while i < n
            invariant
                i <= n,
                n == sorted@.len(),
                out@.len() == i,
                forall|k: int|
                    0 <= k < i ==> base_of(#[trigger] out@[k]) == sorted@[k] && is_response_of(
                        out@[k],
                        sorted@[k],
                        active_count(self.participants@, sorted@[k].id) as i64,
                        now as int,
                    ),
            decreases n - i,
        {
            let count = self.count_active(sorted[i].id);
            let resp = derive_response(sorted[i].duplicate(), count, now);
            out.push(resp);
            i += 1;
        }
        proof {
            assert(bases_of(out@) =~= sorted@);
        }
        out
    }

    /// Lists the active categories, ordered by name ascending.
    pub fn list_categories(&self) -> (r: Vec<Category>)
        requires
            self.wf(),
        ensures
            r@.len() == active_categories(self.categories@).len(),
            r@.to_multiset() == active_categories(self.categories@).to_multiset(),
            forall|i: int, j: int| 0 <= i < j < r@.len() ==> lex_le(r@[i].name@, r@[j].name@),
    {
        broadcast use vstd::prelude::Seq::lemma_filter_push;

        let n = self.categories.len();
        let mut picked: Vec<Category> = Vec::new();
        let mut i: usize = 0;
        proof {
            assert(self.categories@.subrange(0, 0) =~= Seq::<Category>::empty());
            assert(Seq::<Category>::empty().filter(|c: Category| c.is_active)
                =~= Seq::<Category>::empty());
        }
        while i < n
            invariant
                i <= n,
                n == self.categories@.len(),
                picked@ =~= active_categories(self.categories@.subrange(0, i as int)),
            decreases n - i,
        {
            proof {
                assert(self.categories@.subrange(0, i as int + 1)
                    =~= self.categories@.subrange(0, i as int).push(self.categories@[i as int]));
            }
            if self.categories[i].is_active {
                picked.push(self.categories[i].duplicate());
            }
            i += 1;
        }
        proof {
            assert(self.categories@.subrange(0, n as int) =~= self.categories@);
        }
        sort_categories_by_name(picked)
    }
}

} // verus!
