//! The user and balance ledger: user records keyed by a unique
//! (platform, platform user id) pair, the cached balance with its explicit
//! update operation, journal aggregates, and the per-user dialog-state
//! row.
//!
//! An explicit balance update deliberately writes no journal entry — the
//! cached balance and the journal are reconciled only through
//! `record_transaction`, exactly as the stored schema has it.

use vstd::prelude::*;
use crate::errors::AppError;
use crate::present::{
    is_user_response_of, role_display, role_display_of, user_base_of, user_bases_of,
};
use crate::records::{
    ClearSessionRequest, CreateUser, Instant, Money, PlatformQuery, RoleResponse,
    SetSessionState, Transaction,
    UpdateUser, User, UserBalanceResponse, UserResponse, UserSession,
};
use crate::store::{
    deposit_sum, eq_categories, eq_chat, eq_money_side, eq_procurement_side, eq_sessions,
    eq_users, ids_ok, lemma_deposit_sum_push, lemma_spent_sum_push, spent_sum, Store,
};
use crate::text::{normalize_phone, normalized_phone, str_eq};

verus! {

/// The platform a request addresses: the given one, or `telegram`.
pub open spec fn platform_or_default(p: Option<String>) -> Seq<char> {
    match p {
        Option::Some(s) => s@,
        Option::None => "telegram"@,
    }
}

/// The error a user creation is refused with, checked in this order;
/// `None` when creation is owed success.
pub open spec fn create_user_error(s: Store, req: CreateUser) -> Option<AppError> {
    if req.platform_user_id@.len() == 0 {
        Option::Some(AppError::MissingPlatformUserId)
    } else if s.has_user_by_platform(platform_or_default(req.platform), req.platform_user_id@) {
        Option::Some(AppError::UserAlreadyExists)
    } else if s.next_user_id == i32::MAX {
        Option::Some(AppError::StorageFull)
    } else {
        Option::None
    }
}

/// True when a partial update supplies no field at all.
pub open spec fn update_is_empty(u: UpdateUser) -> bool {
    &&& u.first_name is None
    &&& u.last_name is None
    &&& u.phone is None
    &&& u.email is None
    &&& u.role is None
}

/// The user `u` after the partial update `upd` at instant `now`.
pub open spec fn updated_user(u: User, upd: UpdateUser, now: Instant) -> User {
    User {
        first_name: match upd.first_name {
            Option::Some(v) => v,
            Option::None => u.first_name,
        },
        last_name: match upd.last_name {
            Option::Some(v) => v,
            Option::None => u.last_name,
        },
        phone: match upd.phone {
            Option::Some(v) => v,
            Option::None => u.phone,
        },
        email: match upd.email {
            Option::Some(v) => v,
            Option::None => u.email,
        },
        role: match upd.role {
            Option::Some(v) => v,
            Option::None => u.role,
        },
        updated_at: now,
        ..u
    }
}

/// Removing one entry keeps a table's id discipline.
proof fn lemma_ids_ok_remove(ids: Seq<i32>, next: i32, k: int)
    requires
        ids_ok(ids, next),
        0 <= k < ids.len(),
    ensures
        ids_ok(ids.remove(k), next),
{
    let r = ids.remove(k);
    assert(forall|i: int|
        0 <= i < r.len() ==> #[trigger] r[i] == (if i < k {
            ids[i]
        } else {
            ids[i + 1]
        }));
}


/// Sorts users by creation instant, newest first.
fn sort_users_desc(input: Vec<User>) -> (r: Vec<User>)
    ensures
        r@.len() == input@.len(),
        r@.to_multiset() == input@.to_multiset(),
        forall|i: int, j: int|
            0 <= i < j < r@.len() ==> r@[i].created_at >= r@[j].created_at,
{
    broadcast use vstd::seq_lib::group_to_multiset_ensures;

    let mut rem = input;
    let ghost orig = rem@;
    let mut out: Vec<User> = Vec::new();
    proof {
        assert(out@.to_multiset().add(rem@.to_multiset()) =~= orig.to_multiset());
    }
    while rem.len() > 0
        invariant
            out@.len() + rem@.len() == orig.len(),
            out@.to_multiset().add(rem@.to_multiset()) == orig.to_multiset(),
            forall|i: int, j: int|
                0 <= i < j < out@.len() ==> out@[i].created_at >= out@[j].created_at,
            forall|i: int, j: int|
                0 <= i < out@.len() && 0 <= j < rem@.len() ==> out@[i].created_at
                    >= rem@[j].created_at,
        decreases rem@.len(),
    {
        let mut m: usize = 0;
        let mut i: usize = 1;
        while i < rem.len()
            invariant
                m < i <= rem@.len(),
                forall|j: int| 0 <= j < i ==> rem@[m as int].created_at >= rem@[j].created_at,
            decreases rem@.len() - i,
        {
            if rem[i].created_at > rem[m].created_at {
                m = i;
            }
            i += 1;
        }
        let ghost rem_before = rem@;
        let ghost out_before = out@;
        let x = rem.remove(m);
        out.push(x);
        proof {
            assert(rem@.to_multiset() =~= rem_before.to_multiset().remove(x));
            assert(out@.to_multiset() =~= out_before.to_multiset().insert(x));
            assert(rem_before.to_multiset().count(x) > 0) by {
                assert(rem_before[m as int] == x);
                assert(rem_before.contains(x));
            }
            assert(out@.to_multiset().add(rem@.to_multiset()) =~= orig.to_multiset());
            assert(forall|j: int|
                0 <= j < rem@.len() ==> #[trigger] rem@[j] == (if j < m {
                    rem_before[j]
                } else {
                    rem_before[j + 1]
                }));
        }
    }
    out
}

impl Store {
    /// The position of the user with the given natural key, when present.
    pub fn find_user_by_platform(&self, platform: &str, puid: &str) -> (r: Option<usize>)
        requires
            self.wf(),
        ensures
            match r {
                Option::Some(i) => i < self.users@.len() && self.users@[i as int].platform@
                    == platform@ && self.users@[i as int].platform_user_id@ == puid@
                    && self.has_user_by_platform(platform@, puid@)
                    && self.user_index_by_platform(platform@, puid@) == i as int,
                Option::None => !self.has_user_by_platform(platform@, puid@),
            },
    {
        let n = self.users.len();
        let mut i: usize = 0;
        while i < n
            invariant
                i <= n,
                n == self.users@.len(),
                forall|j: int|
                    0 <= j < i ==> !((#[trigger] self.users@[j]).platform@ == platform@
                        && self.users@[j].platform_user_id@ == puid@),
            decreases n - i,
        {
            if str_eq(self.users[i].platform.as_str(), platform) && str_eq(
                self.users[i].platform_user_id.as_str(),
                puid,
            ) {
                proof {
                    assert(forall|k: int|
                        0 <= k < self.users@.len() && (#[trigger] self.users@[k]).platform@
                            == platform@ && self.users@[k].platform_user_id@ == puid@ ==> k == i as int);
                }
                return Option::Some(i);
            }
            i += 1;
        }
        Option::None
    }


    /// Lists every user's public view, newest first.
    pub fn list_users(&self) -> (r: Vec<UserResponse>)
        requires
            self.wf(),
        ensures
            r@.len() == self.users@.len(),
            user_bases_of(r@).to_multiset() == self.users@.to_multiset(),
            forall|i: int, j: int|
                0 <= i < j < r@.len() ==> r@[i].created_at >= r@[j].created_at,
            forall|i: int|
                0 <= i < r@.len() ==> is_user_response_of(#[trigger] r@[i], user_base_of(r@[i])),
    {
        let n = self.users.len();
        let mut copies: Vec<User> = Vec::new();
        let mut i: usize = 0;
        while i < n
            invariant
                i <= n,
                n == self.users@.len(),
                copies@ =~= self.users@.subrange(0, i as int),
            decreases n - i,
        {
            copies.push(self.users[i].duplicate());
            proof {
                assert(copies@ =~= self.users@.subrange(0, i as int + 1));
            }
            i += 1;
        }
        proof {
            assert(copies@ =~= self.users@);
        }
        let sorted = sort_users_desc(copies);
        let m = sorted.len();
        let mut out: Vec<UserResponse> = Vec::new();
        let mut j: usize = 0;
        while j < m
            invariant
                j <= m,
                m == sorted@.len(),
                out@.len() == j,
                forall|k: int|
                    0 <= k < j ==> user_base_of(#[trigger] out@[k]) == sorted@[k]
                        && is_user_response_of(out@[k], sorted@[k]),
            decreases m - j,
        {
            let resp = UserResponse::from(sorted[j].duplicate());
            proof {
                assert(user_base_of(resp) == sorted@[j as int]);
            }
            out.push(resp);
            j += 1;
        }
        proof {
            assert(user_bases_of(out@) =~= sorted@);
        }
        out
    }

    /// Creates a user: the platform user id is required; platform, role
    /// and language default; the phone is normalized; a duplicate natural
    /// key is refused as a conflict. Returns the public view.
    pub fn create_user(&mut self, req: &CreateUser, now: Instant) -> (r: Result<
        UserResponse,
        AppError,
    >)
        requires
            old(self).wf(),
        ensures
            final(self).wf(),
            match r {
                Result::Err(e) => {
                    &&& Option::Some(e) == create_user_error(*old(self), *req)
                    &&& *final(self) == *old(self)
                },
                Result::Ok(resp) => ({
                    let u = final(self).users@.last();
                    &&& create_user_error(*old(self), *req) is None
                    &&& u.id == old(self).next_user_id
                    &&& u.platform@ == platform_or_default(req.platform)
                    &&& u.platform_user_id == req.platform_user_id
                    &&& u.username@ == (match req.username {
                        Option::Some(v) => v@,
                        Option::None => Seq::<char>::empty(),
                    })
                    &&& u.first_name == req.first_name
                    &&& u.last_name@ == (match req.last_name {
                        Option::Some(v) => v@,
                        Option::None => Seq::<char>::empty(),
                    })
                    &&& u.phone@ == normalized_phone(
                        match req.phone {
                            Option::Some(v) => v@,
                            Option::None => Seq::<char>::empty(),
                        },
                    )
                    &&& u.email@ == (match req.email {
                        Option::Some(v) => v@,
                        Option::None => Seq::<char>::empty(),
                    })
                    &&& u.role@ == (match req.role {
                        Option::Some(v) => v@,
                        Option::None => "buyer"@,
                    })
                    &&& u.language_code@ == (match req.language_code {
                        Option::Some(v) => v@,
                        Option::None => "ru"@,
                    })
                    &&& u.balance == 0
                    &&& u.is_active
                    &&& !u.is_verified
                    &&& u.created_at == now
                    &&& u.updated_at == now
                    &&& final(self).users@ =~= old(self).users@.push(u)
                    &&& final(self).next_user_id == old(self).next_user_id + 1
                    &&& is_user_response_of(resp, u)
                    &&& eq_procurement_side(*final(self), *old(self))
                    &&& eq_categories(*final(self), *old(self))
                    &&& eq_chat(*final(self), *old(self))
                    &&& eq_money_side(*final(self), *old(self))
                    &&& eq_sessions(*final(self), *old(self))
                }),
            },
    {
        if req.platform_user_id.as_str().unicode_len() == 0 {
            return Result::Err(AppError::MissingPlatformUserId);
        }
        let platform = match &req.platform {
            Option::Some(p) => p.clone(),
            Option::None => "telegram".to_owned(),
        };
        match self.find_user_by_platform(platform.as_str(), req.platform_user_id.as_str()) {
            Option::Some(_) => {
                return Result::Err(AppError::UserAlreadyExists);
            },
            Option::None => {},
        }
        if self.next_user_id == i32::MAX {
            return Result::Err(AppError::StorageFull);
        }
        let raw_phone = match &req.phone {
            Option::Some(v) => v.clone(),
            Option::None => String::new(),
        };
        let id = self.next_user_id;
        let u = User {
            id,
            platform,
            platform_user_id: req.platform_user_id.clone(),
            username: match &req.username {
                Option::Some(v) => v.clone(),
                Option::None => String::new(),
            },
            first_name: req.first_name.clone(),
            last_name: match &req.last_name {
                Option::Some(v) => v.clone(),
                Option::None => String::new(),
            },
            phone: normalize_phone(raw_phone.as_str()),
            email: match &req.email {
                Option::Some(v) => v.clone(),
                Option::None => String::new(),
            },
            role: match &req.role {
                Option::Some(v) => v.clone(),
                Option::None => "buyer".to_owned(),
            },
            balance: 0,
            language_code: match &req.language_code {
                Option::Some(v) => v.clone(),
                Option::None => "ru".to_owned(),
            },
            is_active: true,
            is_verified: false,
            created_at: now,
            updated_at: now,
        };
        let resp = UserResponse::from(u.duplicate());
        self.users.push(u);
        self.next_user_id = id + 1;
        proof {
            assert(self.user_ids() =~= old(self).user_ids().push(id));
        }
        Result::Ok(resp)
    }

    /// Fetches one user's public view.
    pub fn get_user(&self, id: i32) -> (r: Result<UserResponse, AppError>)
        requires
            self.wf(),
        ensures
            match r {
                Result::Err(e) => e == AppError::NotFound && !self.has_user(id),
                Result::Ok(resp) => self.has_user(id) && is_user_response_of(
                    resp,
                    self.user_by_id(id),
                ),
            },
    {
        match self.find_user(id) {
            Option::Some(i) => Result::Ok(UserResponse::from(self.users[i].duplicate())),
            Option::None => Result::Err(AppError::NotFound),
        }
    }

    /// Applies a partial update: only supplied fields change; with no
    /// field supplied nothing changes, not even the update instant, and
    /// the current view is returned.
    pub fn update_user(&mut self, id: i32, upd: &UpdateUser, now: Instant) -> (r: Result<
        UserResponse,
        AppError,
    >)
        requires
            old(self).wf(),
        ensures
            final(self).wf(),
            match r {
                Result::Err(e) => {
                    &&& e == AppError::NotFound
                    &&& !old(self).has_user(id)
                    &&& *final(self) == *old(self)
                },
                Result::Ok(resp) => {
                    &&& old(self).has_user(id)
                    &&& (if update_is_empty(*upd) {
                        &&& *final(self) == *old(self)
                        &&& is_user_response_of(resp, old(self).user_by_id(id))
                    } else {
                        let k = old(self).user_index(id);
                        let u2 = updated_user(old(self).users@[k], *upd, now);
                        &&& final(self).users@ =~= old(self).users@.update(k, u2)
                        &&& final(self).next_user_id == old(self).next_user_id
                        &&& is_user_response_of(resp, u2)
                        &&& eq_procurement_side(*final(self), *old(self))
                        &&& eq_categories(*final(self), *old(self))
                        &&& eq_chat(*final(self), *old(self))
                        &&& eq_money_side(*final(self), *old(self))
                        &&& eq_sessions(*final(self), *old(self))
                    })
                },
            },
    {
        let k = match self.find_user(id) {
            Option::Some(i) => i,
            Option::None => {
                return Result::Err(AppError::NotFound);
            },
        };
        let no_fields = match (&upd.first_name, &upd.last_name, &upd.phone, &upd.email, &upd.role) {
            (Option::None, Option::None, Option::None, Option::None, Option::None) => true,
            _ => false,
        };
        if no_fields {
            return Result::Ok(UserResponse::from(self.users[k].duplicate()));
        }
        let old_user = self.users[k].duplicate();
        let u2 = User {
            id: old_user.id,
            platform: old_user.platform,
            platform_user_id: old_user.platform_user_id,
            username: old_user.username,
            first_name: match &upd.first_name {
                Option::Some(v) => v.clone(),
                Option::None => old_user.first_name,
            },
            last_name: match &upd.last_name {
                Option::Some(v) => v.clone(),
                Option::None => old_user.last_name,
            },
            phone: match &upd.phone {
                Option::Some(v) => v.clone(),
                Option::None => old_user.phone,
            },
            email: match &upd.email {
                Option::Some(v) => v.clone(),
                Option::None => old_user.email,
            },
            role: match &upd.role {
                Option::Some(v) => v.clone(),
                Option::None => old_user.role,
            },
            balance: old_user.balance,
            language_code: old_user.language_code,
            is_active: old_user.is_active,
            is_verified: old_user.is_verified,
            created_at: old_user.created_at,
            updated_at: now,
        };
        let resp = UserResponse::from(u2.duplicate());
        self.users[k] = u2;
        proof {
            let k2 = k as int;
            assert(self.users@ =~= old(self).users@.update(
                k2,
                updated_user(old(self).users@[k2], *upd, now),
            ));
            assert(self.user_ids() =~= old(self).user_ids());
            assert(forall|i: int|
                0 <= i < self.users@.len() ==> (#[trigger] self.users@[i]).platform@
                    == old(self).users@[i].platform@ && self.users@[i].platform_user_id@
                    == old(self).users@[i].platform_user_id@);
        }
        Result::Ok(resp)
    }

    /// Hard-deletes a user by id; the ledger and any participant rows
    /// stay.
    pub fn delete_user(&mut self, id: i32) -> (r: Result<(), AppError>)
        requires
            old(self).wf(),
        ensures
            final(self).wf(),
            match r {
                Result::Err(e) => {
                    &&& e == AppError::NotFound
                    &&& !old(self).has_user(id)
                    &&& *final(self) == *old(self)
                },
                Result::Ok(u) => {
                    &&& old(self).has_user(id)
                    &&& final(self).users@ =~= old(self).users@.remove(old(self).user_index(id))
                    &&& final(self).next_user_id == old(self).next_user_id
                    &&& eq_procurement_side(*final(self), *old(self))
                    &&& eq_categories(*final(self), *old(self))
                    &&& eq_chat(*final(self), *old(self))
                    &&& eq_money_side(*final(self), *old(self))
                    &&& eq_sessions(*final(self), *old(self))
                },
            },
    {
        let k = match self.find_user(id) {
            Option::Some(i) => i,
            Option::None => {
                return Result::Err(AppError::NotFound);
            },
        };
        self.users.remove(k);
        proof {
            let k2 = k as int;
            assert(self.user_ids() =~= old(self).user_ids().remove(k2));
            lemma_ids_ok_remove(old(self).user_ids(), old(self).next_user_id, k2);
            assert(forall|i: int|
                0 <= i < self.users@.len() ==> #[trigger] self.users@[i] == (if i < k2 {
                    old(self).users@[i]
                } else {
                    old(self).users@[i + 1]
                }));
        }
        Result::Ok(())
    }

    /// Looks a user up by the natural key; the platform user id is
    /// required, the platform defaults to `telegram`.
    pub fn get_user_by_platform(&self, q: &PlatformQuery) -> (r: Result<UserResponse, AppError>)
        requires
            self.wf(),
        ensures
            match r {
                Result::Err(e) => {
                    if q.platform_user_id is None {
                        e == AppError::MissingPlatformUserId
                    } else {
                        e == AppError::NotFound && !self.has_user_by_platform(
                            platform_or_default(q.platform),
                            q.platform_user_id->Some_0@,
                        )
                    }
                },
                Result::Ok(resp) => {
                    &&& q.platform_user_id is Some
                    &&& self.has_user_by_platform(
                        platform_or_default(q.platform),
                        q.platform_user_id->Some_0@,
                    )
                    &&& is_user_response_of(
                        resp,
                        self.users@[self.user_index_by_platform(
                            platform_or_default(q.platform),
                            q.platform_user_id->Some_0@,
                        )],
                    )
                },
            },
    {
        let puid = match &q.platform_user_id {
            Option::Some(v) => v,
            Option::None => {
                return Result::Err(AppError::MissingPlatformUserId);
            },
        };
        let platform = match &q.platform {
            Option::Some(p) => p.clone(),
            Option::None => "telegram".to_owned(),
        };
        match self.find_user_by_platform(platform.as_str(), puid.as_str()) {
            Option::Some(i) => Result::Ok(UserResponse::from(self.users[i].duplicate())),
            Option::None => Result::Err(AppError::NotFound),
        }
    }

    /// Answers whether a user with the natural key exists; the platform
    /// user id is required, the platform defaults to `telegram`.
    pub fn check_user_exists(&self, q: &PlatformQuery) -> (r: Result<bool, AppError>)
        requires
            self.wf(),
        ensures
            match r {
                Result::Err(e) => e == AppError::MissingPlatformUserId && q.platform_user_id is None,
                Result::Ok(b) => q.platform_user_id is Some && b == self.has_user_by_platform(
                    platform_or_default(q.platform),
                    q.platform_user_id->Some_0@,
                ),
            },
    {
        let puid = match &q.platform_user_id {
            Option::Some(v) => v,
            Option::None => {
                return Result::Err(AppError::MissingPlatformUserId);
            },
        };
        let platform = match &q.platform {
            Option::Some(p) => p.clone(),
            Option::None => "telegram".to_owned(),
        };
        match self.find_user_by_platform(platform.as_str(), puid.as_str()) {
            Option::Some(_) => Result::Ok(true),
            Option::None => Result::Ok(false),
        }
    }

    /// Reads the balance view: the cached balance, the journal's deposit
    /// total, the journal's spending total, and the available amount,
    /// which equals the cached balance.
    pub fn get_user_balance(&self, id: i32) -> (r: Result<UserBalanceResponse, AppError>)
        requires
            self.wf(),
        ensures
            match r {
                Result::Err(e) => {
                    if !self.has_user(id) {
                        e == AppError::NotFound
                    } else {
                        e == AppError::AmountOutOfRange && !(crate::procure::money_in_range(
                            deposit_sum(self.transactions@, id),
                        ) && crate::procure::money_in_range(spent_sum(self.transactions@, id)))
                    }
                },
                Result::Ok(b) => {
                    &&& self.has_user(id)
                    &&& b.balance == self.user_by_id(id).balance
                    &&& b.total_deposited as int == deposit_sum(self.transactions@, id)
                    &&& b.total_spent as int == spent_sum(self.transactions@, id)
                    &&& b.available == self.user_by_id(id).balance
                },
            },
    {
        let k = match self.find_user(id) {
            Option::Some(i) => i,
            Option::None => {
                return Result::Err(AppError::NotFound);
            },
        };
        let n = self.transactions.len();
        let mut dep: i128 = 0;
        let mut sp: i128 = 0;
        let mut i: usize = 0;
        proof {
            assert(self.transactions@.subrange(0, 0) =~= Seq::<Transaction>::empty());
        }
        while i < n
            invariant
                i <= n,
                n == self.transactions@.len(),
                dep as int == deposit_sum(self.transactions@.subrange(0, i as int), id),
                sp as int == spent_sum(self.transactions@.subrange(0, i as int), id),
                -(i as int) * 0x8000_0000_0000_0000 <= dep as int <= (i as int)
                    * 0x8000_0000_0000_0000,
                0 <= sp as int <= (i as int) * 0x8000_0000_0000_0000,
            decreases n - i,
        {
            proof {
                let pre = self.transactions@.subrange(0, i as int);
                let t = self.transactions@[i as int];
                assert(self.transactions@.subrange(0, i as int + 1) =~= pre.push(t));
                lemma_deposit_sum_push(pre, t, id);
                lemma_spent_sum_push(pre, t, id);
            }
            let t = &self.transactions[i];
            if t.user_id == id && str_eq(t.transaction_type.as_str(), "deposit") {
                dep = dep + t.amount as i128;
            }
            if t.user_id == id && t.amount < 0 {
                sp = sp - t.amount as i128;
            }
            i += 1;
        }
        proof {
            assert(self.transactions@.subrange(0, n as int) =~= self.transactions@);
        }
        if dep > i64::MAX as i128 || dep < i64::MIN as i128 || sp > i64::MAX as i128 {
            return Result::Err(AppError::AmountOutOfRange);
        }
        let balance = self.users[k].balance;
        Result::Ok(UserBalanceResponse {
            balance,
            total_deposited: dep as i64,
            total_spent: sp as i64,
            available: balance,
        })
    }

    /// Adds `delta` to a user's cached balance and bumps the update
    /// instant. Writes no journal entry: the cached balance and the
    /// journal reconcile only through `record_transaction`.
    pub fn update_user_balance(&mut self, id: i32, delta: Money, now: Instant) -> (r: Result<
        Money,
        AppError,
    >)
        requires
            old(self).wf(),
        ensures
            final(self).wf(),
            match r {
                Result::Err(e) => {
                    &&& *final(self) == *old(self)
                    &&& (if !old(self).has_user(id) {
                        e == AppError::NotFound
                    } else {
                        e == AppError::AmountOutOfRange && !crate::procure::money_in_range(
                            old(self).user_by_id(id).balance + delta,
                        )
                    })
                },
                Result::Ok(b) => ({
                    let k = old(self).user_index(id);
                    let u = old(self).users@[k];
                    &&& old(self).has_user(id)
                    &&& b as int == u.balance + delta
                    &&& final(self).users@ =~= old(self).users@.update(
                        k,
                        User { balance: b, updated_at: now, ..u },
                    )
                    &&& final(self).next_user_id == old(self).next_user_id
                    &&& eq_procurement_side(*final(self), *old(self))
                    &&& eq_categories(*final(self), *old(self))
                    &&& eq_chat(*final(self), *old(self))
                    &&& eq_money_side(*final(self), *old(self))
                    &&& eq_sessions(*final(self), *old(self))
                }),
            },
    {
        let k = match self.find_user(id) {
            Option::Some(i) => i,
            Option::None => {
                return Result::Err(AppError::NotFound);
            },
        };
        let new_balance = match self.users[k].balance.checked_add(delta) {
            Option::Some(b) => b,
            Option::None => {
                return Result::Err(AppError::AmountOutOfRange);
            },
        };
        self.users[k].balance = new_balance;
        self.users[k].updated_at = now;
        proof {
            let k2 = k as int;
            assert(self.users@ =~= old(self).users@.update(
                k2,
                User { balance: new_balance, updated_at: now, ..old(self).users@[k2] },
            ));
            assert(self.user_ids() =~= old(self).user_ids());
            assert(forall|i: int|
                0 <= i < self.users@.len() ==> (#[trigger] self.users@[i]).platform@
                    == old(self).users@[i].platform@ && self.users@[i].platform_user_id@
                    == old(self).users@[i].platform_user_id@);
        }
        Result::Ok(new_balance)
    }

    /// Reads a user's role beside its display label.
    pub fn get_user_role(&self, id: i32) -> (r: Result<RoleResponse, AppError>)
        requires
            self.wf(),
        ensures
            match r {
                Result::Err(e) => e == AppError::NotFound && !self.has_user(id),
                Result::Ok(resp) => {
                    &&& self.has_user(id)
                    &&& resp.role == self.user_by_id(id).role
                    &&& resp.role_display@ == role_display_of(self.user_by_id(id).role@)
                },
            },
    {
        match self.find_user(id) {
            Option::Some(i) => {
                let role = self.users[i].role.clone();
                let label = role_display(role.as_str());
                Result::Ok(RoleResponse { role, role_display: label })
            },
            Option::None => Result::Err(AppError::NotFound),
        }
    }

    /// Appends an immutable ledger entry: the gateway primitive every
    /// balance-affecting event is journalled through.
    pub fn record_transaction(
        &mut self,
        user_id: i32,
        transaction_type: String,
        amount: Money,
        balance_after: Money,
        payment_id: Option<i32>,
        procurement_id: Option<i32>,
        description: String,
        now: Instant,
    ) -> (r: Result<Transaction, AppError>)
        requires
            old(self).wf(),
        ensures
            final(self).wf(),
            match r {
                Result::Err(e) => {
                    &&& e == AppError::StorageFull
                    &&& old(self).next_transaction_id == i32::MAX
                    &&& *final(self) == *old(self)
                },
                Result::Ok(t) => {
                    &&& old(self).next_transaction_id < i32::MAX
                    &&& t.id == old(self).next_transaction_id
                    &&& t.user_id == user_id
                    &&& t.transaction_type == transaction_type
                    &&& t.amount == amount
                    &&& t.balance_after == balance_after
                    &&& t.payment_id == payment_id
                    &&& t.procurement_id == procurement_id
                    &&& t.description == description
                    &&& t.created_at == now
                    &&& final(self).transactions@ =~= old(self).transactions@.push(t)
                    &&& final(self).next_transaction_id == old(self).next_transaction_id + 1
                    &&& final(self).payments@ == old(self).payments@
                    &&& final(self).next_payment_id == old(self).next_payment_id
                    &&& eq_procurement_side(*final(self), *old(self))
                    &&& eq_users(*final(self), *old(self))
                    &&& eq_categories(*final(self), *old(self))
                    &&& eq_chat(*final(self), *old(self))
                    &&& eq_sessions(*final(self), *old(self))
                },
            },
    {
        if self.next_transaction_id == i32::MAX {
            return Result::Err(AppError::StorageFull);
        }
        let id = self.next_transaction_id;
        let t = Transaction {
            id,
            user_id,
            transaction_type,
            amount,
            balance_after,
            payment_id,
            procurement_id,
            description,
            created_at: now,
        };
        let result = t.duplicate();
        self.transactions.push(t);
        self.next_transaction_id = id + 1;
        proof {
            assert(self.transaction_ids() =~= old(self).transaction_ids().push(id));
        }
        Result::Ok(result)
    }

    /// Upserts a user's single dialog-state row: absent fields default,
    /// the payload defaults to the empty JSON object, the last write wins.
    pub fn set_session_state(&mut self, req: &SetSessionState, now: Instant) -> (r: Result<
        UserSession,
        AppError,
    >)
        requires
            old(self).wf(),
        ensures
            final(self).wf(),
            match r {
                Result::Err(e) => {
                    &&& e == AppError::StorageFull
                    &&& *final(self) == *old(self)
                    &&& !old(self).has_session(req.user_id)
                    &&& old(self).next_session_id == i32::MAX
                },
                Result::Ok(row) => {
                    &&& row.user_id == req.user_id
                    &&& row.dialog_type@ == (match req.dialog_type {
                        Option::Some(v) => v@,
                        Option::None => Seq::<char>::empty(),
                    })
                    &&& row.dialog_state@ == (match req.dialog_state {
                        Option::Some(v) => v@,
                        Option::None => Seq::<char>::empty(),
                    })
                    &&& row.dialog_data@ == (match req.dialog_data {
                        Option::Some(v) => v@,
                        Option::None => "{}"@,
                    })
                    &&& row.updated_at == now
                    &&& (if old(self).has_session(req.user_id) {
                        let k = old(self).session_index(req.user_id);
                        let old_row = old(self).sessions@[k];
                        &&& row.id == old_row.id
                        &&& row.expires_at == old_row.expires_at
                        &&& row.created_at == old_row.created_at
                        &&& final(self).sessions@ =~= old(self).sessions@.update(k, row)
                        &&& final(self).next_session_id == old(self).next_session_id
                    } else {
                        &&& row.id == old(self).next_session_id
                        &&& row.expires_at is None
                        &&& row.created_at == now
                        &&& final(self).sessions@ =~= old(self).sessions@.push(row)
                        &&& final(self).next_session_id == old(self).next_session_id + 1
                    })
                    &&& eq_procurement_side(*final(self), *old(self))
                    &&& eq_users(*final(self), *old(self))
                    &&& eq_categories(*final(self), *old(self))
                    &&& eq_chat(*final(self), *old(self))
                    &&& eq_money_side(*final(self), *old(self))
                },
            },
    {
        let dialog_type = match &req.dialog_type {
            Option::Some(v) => v.clone(),
            Option::None => String::new(),
        };
        let dialog_state = match &req.dialog_state {
            Option::Some(v) => v.clone(),
            Option::None => String::new(),
        };
        let dialog_data = match &req.dialog_data {
            Option::Some(v) => v.clone(),
            Option::None => "{}".to_owned(),
        };
        match self.find_session(req.user_id) {
            Option::Some(k) => {
                let old_row = self.sessions[k].duplicate();
                let row = UserSession {
                    id: old_row.id,
                    user_id: req.user_id,
                    dialog_type,
                    dialog_state,
                    dialog_data,
                    expires_at: old_row.expires_at,
                    created_at: old_row.created_at,
                    updated_at: now,
                };
                let result = row.duplicate();
                self.sessions[k] = row;
                proof {
                    assert(self.sessions@ =~= old(self).sessions@.update(
                        k as int,
                        self.sessions@[k as int],
                    ));
                    assert(self.session_ids() =~= old(self).session_ids());
                }
                Result::Ok(result)
            },
            Option::None => {
                if self.next_session_id == i32::MAX {
                    return Result::Err(AppError::StorageFull);
                }
                let id = self.next_session_id;
                let row = UserSession {
                    id,
                    user_id: req.user_id,
                    dialog_type,
                    dialog_state,
                    dialog_data,
                    expires_at: Option::None,
                    created_at: now,
                    updated_at: now,
                };
                let result = row.duplicate();
                self.sessions.push(row);
                self.next_session_id = id + 1;
                proof {
                    assert(self.session_ids() =~= old(self).session_ids().push(id));
                }
                Result::Ok(result)
            },
        }
    }

    /// Deletes a user's dialog-state row; clearing an absent row is
    /// already success.
    pub fn clear_session_state(&mut self, req: &ClearSessionRequest) -> (r: Result<(), AppError>)
        requires
            old(self).wf(),
        ensures
            final(self).wf(),
            r is Ok,
            !final(self).has_session(req.user_id),
            (if old(self).has_session(req.user_id) {
                final(self).sessions@ =~= old(self).sessions@.remove(
                    old(self).session_index(req.user_id),
                )
            } else {
                *final(self) == *old(self)
            }),
            final(self).next_session_id == old(self).next_session_id,
            eq_procurement_side(*final(self), *old(self)),
            eq_users(*final(self), *old(self)),
            eq_categories(*final(self), *old(self)),
            eq_chat(*final(self), *old(self)),
            eq_money_side(*final(self), *old(self)),
    {
        match self.find_session(req.user_id) {
            Option::Some(k) => {
                self.sessions.remove(k);
                proof {
                    let k2 = k as int;
                    assert(self.session_ids() =~= old(self).session_ids().remove(k2));
                    lemma_ids_ok_remove(old(self).session_ids(), old(self).next_session_id, k2);
                    assert(forall|i: int|
                        0 <= i < self.sessions@.len() ==> #[trigger] self.sessions@[i] == (if i
                            < k2 {
                            old(self).sessions@[i]
                        } else {
                            old(self).sessions@[i + 1]
                        }));
                }
                Result::Ok(())
            },
            Option::None => Result::Ok(()),
        }
    }
}

} // verus!
