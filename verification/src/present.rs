//! Pure presentation computation: progress percentage, days left until a
//! deadline, joinability, display labels, and the assembled response
//! records.

use vstd::prelude::*;
use crate::records::{Instant, Money, Procurement, ProcurementResponse, User, UserResponse};
use crate::text::{str_eq, trimmed, trim_str};
use crate::clock::now_millis;

verus! {

/// Funding progress as a whole percentage: 0 when the target is 0,
/// otherwise `floor(current / target * 100)` clamped to `[0, 100]`.
pub open spec fn progress_of(current: int, target: int) -> int {
    if target == 0 {
        0
    } else if current <= 0 && target > 0 {
        0
    } else if current >= 0 && target < 0 {
        0
    } else {
        let q = (abs_of(current) * 100) / abs_of(target);
        if q > 100 {
            100
        } else {
            q
        }
    }
}

pub open spec fn abs_of(x: int) -> int {
    if x < 0 {
        -x
    } else {
        x
    }
}

/// Computes the funding progress percentage, as `progress_of` describes.
pub fn progress(current: Money, target: Money) -> (p: i32)
    ensures
        p as int == progress_of(current as int, target as int),
        0 <= p <= 100,
{
    if target == 0 {
        return 0;
    }
    if current <= 0 && target > 0 {
        return 0;
    }
    if current >= 0 && target < 0 {
        return 0;
    }
    let ac: u128 = if current < 0 {
        (-(current as i128)) as u128
    } else {
        current as u128
    };
    let at: u128 = if target < 0 {
        (-(target as i128)) as u128
    } else {
        target as u128
    };
    let q: u128 = ac * 100 / at;
    if q > 100 {
        100
    } else {
        q as i32
    }
}

/// Whole days from `now` to `deadline`, floored, never negative.
pub open spec fn days_left_of(deadline: int, now: int) -> int {
    if deadline <= now {
        0
    } else {
        (deadline - now) / 86_400_000
    }
}

/// Computes the days left until a deadline, as `days_left_of` describes.
pub fn days_left(deadline: Instant, now: Instant) -> (d: i64)
    ensures
        d as int == days_left_of(deadline as int, now as int),
        d >= 0,
{
    if deadline <= now {
        0
    } else {
        let diff: u128 = ((deadline as i128) - (now as i128)) as u128;
        (diff / 86_400_000) as i64
    }
}

/// Whether a procurement can be joined: its status is `active`, its
/// deadline is still ahead, and its optional cap is not yet reached.
pub open spec fn can_join_of(
    status: Seq<char>,
    deadline: int,
    now: int,
    stop_at: Option<Money>,
    current: int,
) -> bool {
    &&& status == "active"@
    &&& deadline > now
    &&& match stop_at {
        Option::Some(stop) => current < stop as int,
        Option::None => true,
    }
}

/// Decides joinability, as `can_join_of` describes.
pub fn can_join(p: &Procurement, now: Instant) -> (r: bool)
    ensures
        r == can_join_of(p.status@, p.deadline as int, now as int, p.stop_at_amount, p.current_amount as int),
{
    str_eq(p.status.as_str(), "active") && p.deadline > now && (match p.stop_at_amount {
        Option::Some(stop) => p.current_amount < stop,
        Option::None => true,
    })
}

/// The human label of a procurement status; unrecognized codes pass
/// through unchanged.
pub open spec fn status_display_of(s: Seq<char>) -> Seq<char> {
    if s == "draft"@ {
        "Draft"@
    } else if s == "active"@ {
        "Active"@
    } else if s == "stopped"@ {
        "Stopped"@
    } else if s == "payment"@ {
        "Payment in Progress"@
    } else if s == "completed"@ {
        "Completed"@
    } else if s == "cancelled"@ {
        "Cancelled"@
    } else {
        s
    }
}

pub fn status_display(s: &str) -> (r: String)
    ensures
        r@ == status_display_of(s@),
{
    if str_eq(s, "draft") {
        "Draft".to_owned()
    } else if str_eq(s, "active") {
        "Active".to_owned()
    } else if str_eq(s, "stopped") {
        "Stopped".to_owned()
    } else if str_eq(s, "payment") {
        "Payment in Progress".to_owned()
    } else if str_eq(s, "completed") {
        "Completed".to_owned()
    } else if str_eq(s, "cancelled") {
        "Cancelled".to_owned()
    } else {
        s.to_owned()
    }
}

/// The human label of a user role; unrecognized codes pass through.
pub open spec fn role_display_of(s: Seq<char>) -> Seq<char> {
    if s == "buyer"@ {
        "Buyer"@
    } else if s == "organizer"@ {
        "Organizer"@
    } else if s == "supplier"@ {
        "Supplier"@
    } else {
        s
    }
}

pub fn role_display(s: &str) -> (r: String)
    ensures
        r@ == role_display_of(s@),
{
    if str_eq(s, "buyer") {
        "Buyer".to_owned()
    } else if str_eq(s, "organizer") {
        "Organizer".to_owned()
    } else if str_eq(s, "supplier") {
        "Supplier".to_owned()
    } else {
        s.to_owned()
    }
}

/// The human label of a payment status; unrecognized codes pass through.
pub open spec fn payment_status_display_of(s: Seq<char>) -> Seq<char> {
    if s == "pending"@ {
        "Pending"@
    } else if s == "waiting_for_capture"@ {
        "Waiting for Capture"@
    } else if s == "succeeded"@ {
        "Succeeded"@
    } else if s == "cancelled"@ {
        "Cancelled"@
    } else if s == "refunded"@ {
        "Refunded"@
    } else {
        s
    }
}

pub fn payment_status_display(s: &str) -> (r: String)
    ensures
        r@ == payment_status_display_of(s@),
{
    if str_eq(s, "pending") {
        "Pending".to_owned()
    } else if str_eq(s, "waiting_for_capture") {
        "Waiting for Capture".to_owned()
    } else if str_eq(s, "succeeded") {
        "Succeeded".to_owned()
    } else if str_eq(s, "cancelled") {
        "Cancelled".to_owned()
    } else if str_eq(s, "refunded") {
        "Refunded".to_owned()
    } else {
        s.to_owned()
    }
}

/// First and last name joined by one space, then trimmed.
pub open spec fn full_name_of(first: Seq<char>, last: Seq<char>) -> Seq<char> {
    trimmed(first + " "@ + last)
}

pub fn full_name(first: &str, last: &str) -> (r: String)
    ensures
        r@ == full_name_of(first@, last@),
{
    let joined = first.to_owned().concat(" ").concat(last);
    trim_str(joined.as_str())
}

/// True when `r` is the response derived from procurement `p` at instant
/// `now` with the given active participant count: the stored fields carried
/// over unchanged and every presentation field computed as its spec
/// function describes.
pub open spec fn is_response_of(r: ProcurementResponse, p: Procurement, participant_count: i64, now: int) -> bool {
    &&& r.id == p.id
    &&& r.title == p.title
    &&& r.description == p.description
    &&& r.category_id == p.category_id
    &&& r.organizer_id == p.organizer_id
    &&& r.supplier_id == p.supplier_id
    &&& r.city == p.city
    &&& r.delivery_address == p.delivery_address
    &&& r.target_amount == p.target_amount
    &&& r.current_amount == p.current_amount
    &&& r.stop_at_amount == p.stop_at_amount
    &&& r.unit == p.unit
    &&& r.price_per_unit == p.price_per_unit
    &&& r.status == p.status
    &&& r.status_display@ == status_display_of(p.status@)
    &&& r.deadline == p.deadline
    &&& r.payment_deadline == p.payment_deadline
    &&& r.image_url == p.image_url
    &&& r.is_featured == p.is_featured
    &&& r.progress as int == progress_of(p.current_amount as int, p.target_amount as int)
    &&& r.participant_count == participant_count
    &&& r.days_left as int == days_left_of(p.deadline as int, now)
    &&& r.can_join == can_join_of(p.status@, p.deadline as int, now, p.stop_at_amount, p.current_amount as int)
    &&& r.created_at == p.created_at
    &&& r.updated_at == p.updated_at
}

/// The stored procurement a response presents, read back off its fields.
pub open spec fn base_of(r: ProcurementResponse) -> Procurement {
    Procurement {
        id: r.id,
        title: r.title,
        description: r.description,
        category_id: r.category_id,
        organizer_id: r.organizer_id,
        supplier_id: r.supplier_id,
        city: r.city,
        delivery_address: r.delivery_address,
        target_amount: r.target_amount,
        current_amount: r.current_amount,
        stop_at_amount: r.stop_at_amount,
        unit: r.unit,
        price_per_unit: r.price_per_unit,
        status: r.status,
        deadline: r.deadline,
        payment_deadline: r.payment_deadline,
        image_url: r.image_url,
        is_featured: r.is_featured,
        created_at: r.created_at,
        updated_at: r.updated_at,
    }
}

/// Computes the presentation fields of a procurement at instant `now`,
/// as `is_response_of` describes.
pub fn derive_response(p: Procurement, participant_count: i64, now: Instant) -> (r: ProcurementResponse)
    ensures
        is_response_of(r, p, participant_count, now as int),
        base_of(r) == p,
{
    let status_label = status_display(p.status.as_str());
    let prog = progress(p.current_amount, p.target_amount);
    let days = days_left(p.deadline, now);
    let joinable = can_join(&p, now);
    ProcurementResponse {
        id: p.id,
        title: p.title,
        description: p.description,
        category_id: p.category_id,
        organizer_id: p.organizer_id,
        supplier_id: p.supplier_id,
        city: p.city,
        delivery_address: p.delivery_address,
        target_amount: p.target_amount,
        current_amount: p.current_amount,
        stop_at_amount: p.stop_at_amount,
        unit: p.unit,
        price_per_unit: p.price_per_unit,
        status: p.status,
        status_display: status_label,
        deadline: p.deadline,
        payment_deadline: p.payment_deadline,
        image_url: p.image_url,
        is_featured: p.is_featured,
        progress: prog,
        participant_count,
        days_left: days,
        can_join: joinable,
        created_at: p.created_at,
        updated_at: p.updated_at,
    }
}

impl Procurement {
    /// The response at the present instant: reads the clock, then derives
    /// every presentation field from this procurement and the count.
    pub fn to_response(self, participant_count: i64) -> (r: ProcurementResponse)
        ensures
            exists|now: int| is_response_of(r, self, participant_count, now),
    {
        let now = now_millis();
        derive_response(self, participant_count, now)
    }
}

/// True when `r` is the public view of user `u`: every stored field
/// carried over, the full name joined and trimmed, the role labelled.
pub open spec fn is_user_response_of(r: UserResponse, u: User) -> bool {
    &&& r.id == u.id
    &&& r.platform == u.platform
    &&& r.platform_user_id == u.platform_user_id
    &&& r.username == u.username
    &&& r.first_name == u.first_name
    &&& r.last_name == u.last_name
    &&& r.full_name@ == full_name_of(u.first_name@, u.last_name@)
    &&& r.phone == u.phone
    &&& r.email == u.email
    &&& r.role == u.role
    &&& r.role_display@ == role_display_of(u.role@)
    &&& r.balance == u.balance
    &&& r.language_code == u.language_code
    &&& r.is_active == u.is_active
    &&& r.is_verified == u.is_verified
    &&& r.created_at == u.created_at
    &&& r.updated_at == u.updated_at
}

impl UserResponse {
    /// Builds the public view of a user, as `is_user_response_of` describes.
    pub fn from(u: User) -> (r: UserResponse)
        ensures
            is_user_response_of(r, u),
    {
        let name = full_name(u.first_name.as_str(), u.last_name.as_str());
        let label = role_display(u.role.as_str());
        UserResponse {
            id: u.id,
            platform: u.platform,
            platform_user_id: u.platform_user_id,
            username: u.username,
            first_name: u.first_name,
            last_name: u.last_name,
            full_name: name,
            phone: u.phone,
            email: u.email,
            role: u.role,
            role_display: label,
            balance: u.balance,
            language_code: u.language_code,
            is_active: u.is_active,
            is_verified: u.is_verified,
            created_at: u.created_at,
            updated_at: u.updated_at,
        }
    }
}


/// The stored user a response presents, read back off its fields.
pub open spec fn user_base_of(r: UserResponse) -> User {
    User {
        id: r.id,
        platform: r.platform,
        platform_user_id: r.platform_user_id,
        username: r.username,
        first_name: r.first_name,
        last_name: r.last_name,
        phone: r.phone,
        email: r.email,
        role: r.role,
        balance: r.balance,
        language_code: r.language_code,
        is_active: r.is_active,
        is_verified: r.is_verified,
        created_at: r.created_at,
        updated_at: r.updated_at,
    }
}

/// The stored users a sequence of responses presents.
pub open spec fn user_bases_of(s: Seq<UserResponse>) -> Seq<User> {
    s.map_values(|x: UserResponse| user_base_of(x))
}

} // verus!
