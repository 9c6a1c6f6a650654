//! The library's laws, stated on their own: what holds of every
//! well-formed store and of the pure presentation functions, written out
//! so a reader sees the property itself rather than deriving it from the
//! operation contracts.

use vstd::prelude::*;
use crate::errors::AppError;
use crate::present::{can_join_of, progress_of};
use crate::procure::join_error;
use crate::records::{CreateUser, Instant, JoinProcurement, Money, User};
use crate::store::{active_sum, Store};
use crate::users::{create_user_error, platform_or_default};

verus! {

/// In every well-formed store — so after any sequence of joins and
/// leaves — each procurement's cached `current_amount` equals the exact
/// sum of `amount` over its active participants.
pub proof fn lemma_current_amount_is_active_sum(s: Store, i: int)
    requires
        s.wf(),
        0 <= i < s.procurements@.len(),
    ensures
        s.procurements@[i].current_amount as int == active_sum(
            s.participants@,
            s.procurements@[i].id,
        ),
{
}

/// Progress is 0 for a zero target; it is always within `[0, 100]`; and
/// for a positive target and a non-negative amount it is exactly
/// `floor(current * 100 / target)` clamped from above at 100.
pub proof fn lemma_progress_spec(current: int, target: int)
    ensures
        target == 0 ==> progress_of(current, target) == 0,
        0 <= progress_of(current, target) <= 100,
        target > 0 && current >= 0 ==> progress_of(current, target) == (
        if (current * 100) / target > 100 {
            100int
        } else {
            (current * 100) / target
        }),
{
}

/// Joinability fails as soon as the status leaves `active`, the deadline
/// passes, or the cap is reached — and holds exactly otherwise.
pub proof fn lemma_can_join_gates(
    status: Seq<char>,
    deadline: int,
    now: int,
    stop_at: Option<Money>,
    current: int,
)
    ensures
        status != "active"@ ==> !can_join_of(status, deadline, now, stop_at, current),
        deadline <= now ==> !can_join_of(status, deadline, now, stop_at, current),
        (stop_at matches Option::Some(cap) && current >= cap as int) ==> !can_join_of(
            status,
            deadline,
            now,
            stop_at,
            current,
        ),
        (status == "active"@ && deadline > now && (match stop_at {
            Option::Some(cap) => current < cap as int,
            Option::None => true,
        })) ==> can_join_of(status, deadline, now, stop_at, current),
{
}

/// A second join by the same user on the same procurement is refused as
/// the typed conflict, not as a generic failure; and since `join` leaves
/// the store untouched on every error, the participant table — and with
/// it the participant count — is unaffected.
pub proof fn lemma_duplicate_join_is_conflict(s: Store, pid: i32, req: JoinProcurement)
    requires
        s.wf(),
        req.user_id is Some,
        s.has_procurement(pid),
        s.procurement_by_id(pid).status@ == "active"@,
        s.has_participant(pid, req.user_id->Some_0),
    ensures
        join_error(s, pid, req) == Option::Some(AppError::AlreadyJoined),
        AppError::AlreadyJoined.spec_is_conflict(),
        AppError::AlreadyJoined.spec_status_code() == 400,
{
}

/// Creating a user whose (platform, platform user id) pair already
/// exists is refused as the typed conflict, answered with 400, never
/// with a storage failure.
pub proof fn lemma_duplicate_user_is_conflict(s: Store, req: CreateUser)
    requires
        req.platform_user_id@.len() > 0,
        s.has_user_by_platform(platform_or_default(req.platform), req.platform_user_id@),
    ensures
        create_user_error(s, req) == Option::Some(AppError::UserAlreadyExists),
        AppError::UserAlreadyExists.spec_is_conflict(),
        AppError::UserAlreadyExists.spec_status_code() == 400,
{
}

/// What a successful balance update leaves behind: the user's stored
/// balance is the old one plus the delta. Applied twice, two updates
/// leave the balance at the previous value plus the sum of the deltas.
pub proof fn lemma_update_balance_result(
    s0: Store,
    s1: Store,
    id: i32,
    delta: Money,
    b: Money,
    now: Instant,
)
    requires
        s0.wf(),
        s1.wf(),
        s0.has_user(id),
        b as int == s0.user_by_id(id).balance + delta,
        s1.users@ =~= s0.users@.update(
            s0.user_index(id),
            User { balance: b, updated_at: now, ..s0.users@[s0.user_index(id)] },
        ),
    ensures
        s1.has_user(id),
        s1.user_by_id(id).balance == b,
        s1.user_by_id(id).balance as int == s0.user_by_id(id).balance + delta,
{
    let k = s0.user_index(id);
    assert(s1.users@[k].id == id);
    assert(s1.has_user(id));
    let j = s1.user_index(id);
    assert(0 <= j < s1.users@.len() && s1.users@[j].id == id);
    if j != k {
        let a = if j < k {
            j
        } else {
            k
        };
        let b2 = if j < k {
            k
        } else {
            j
        };
        assert(s1.user_ids()[a] == s1.users@[a].id);
        assert(s1.user_ids()[b2] == s1.users@[b2].id);
        assert(s1.user_ids()[a] != s1.user_ids()[b2]);
        assert(false);
    }
}

} // verus!
