//! The data model: stored records, request inputs and response shapes.
//!
//! Exact decimal amounts are held as [`Money`], an integer count of minor
//! currency units; instants are held as [`Instant`], epoch milliseconds.
//! Free-form JSON payloads carried through the store (dialog data, payment
//! metadata) are held as their JSON text.

use vstd::prelude::*;
use crate::text::dup_opt_string;

verus! {

/// An instant in time, as milliseconds since the Unix epoch.
pub type Instant = i64;

/// An exact decimal amount, as an integer count of minor currency units.
pub type Money = i64;

/// A catalogue category; seeded by the operator, read by the engine.
#[derive(Debug)]
pub struct Category {
    pub id: i32,
    pub name: String,
    pub description: String,
    pub parent_id: Option<i32>,
    pub icon: String,
    pub is_active: bool,
    pub created_at: Instant,
}

impl Category {
    pub fn duplicate(&self) -> (r: Self)
        ensures
            r == *self,
    {
        Category {
            id: self.id,
            name: self.name.clone(),
            description: self.description.clone(),
            parent_id: self.parent_id,
            icon: self.icon.clone(),
            is_active: self.is_active,
            created_at: self.created_at,
        }
    }
}

/// A collective purchase campaign.
#[derive(Debug)]
pub struct Procurement {
    pub id: i32,
    pub title: String,
    pub description: String,
    pub category_id: Option<i32>,
    pub organizer_id: i32,
    pub supplier_id: Option<i32>,
    pub city: String,
    pub delivery_address: String,
    pub target_amount: Money,
    pub current_amount: Money,
    pub stop_at_amount: Option<Money>,
    pub unit: String,
    pub price_per_unit: Option<Money>,
    pub status: String,
    pub deadline: Instant,
    pub payment_deadline: Option<Instant>,
    pub image_url: String,
    pub is_featured: bool,
    pub created_at: Instant,
    pub updated_at: Instant,
}

impl Procurement {
    pub fn duplicate(&self) -> (r: Self)
        ensures
            r == *self,
    {
        Procurement {
            id: self.id,
            title: self.title.clone(),
            description: self.description.clone(),
            category_id: self.category_id,
            organizer_id: self.organizer_id,
            supplier_id: self.supplier_id,
            city: self.city.clone(),
            delivery_address: self.delivery_address.clone(),
            target_amount: self.target_amount,
            current_amount: self.current_amount,
            stop_at_amount: self.stop_at_amount,
            unit: self.unit.clone(),
            price_per_unit: self.price_per_unit,
            status: self.status.clone(),
            deadline: self.deadline,
            payment_deadline: self.payment_deadline,
            image_url: self.image_url.clone(),
            is_featured: self.is_featured,
            created_at: self.created_at,
            updated_at: self.updated_at,
        }
    }
}

/// A user's contribution record to one procurement. One row per
/// (procurement, user); "leaving" clears `is_active`, the row stays.
#[derive(Debug)]
pub struct Participant {
    pub id: i32,
    pub procurement_id: i32,
    pub user_id: i32,
    pub quantity: Money,
    pub amount: Money,
    pub status: String,
    pub notes: String,
    pub is_active: bool,
    pub created_at: Instant,
    pub updated_at: Instant,
}

impl Participant {
    pub fn duplicate(&self) -> (r: Self)
        ensures
            r == *self,
    {
        Participant {
            id: self.id,
            procurement_id: self.procurement_id,
            user_id: self.user_id,
            quantity: self.quantity,
            amount: self.amount,
            status: self.status.clone(),
            notes: self.notes.clone(),
            is_active: self.is_active,
            created_at: self.created_at,
            updated_at: self.updated_at,
        }
    }
}

/// A platform user. `(platform, platform_user_id)` is unique together;
/// `balance` is the cached aggregate the ledger maintains.
#[derive(Debug)]
pub struct User {
    pub id: i32,
    pub platform: String,
    pub platform_user_id: String,
    pub username: String,
    pub first_name: String,
    pub last_name: String,
    pub phone: String,
    pub email: String,
    pub role: String,
    pub balance: Money,
    pub language_code: String,
    pub is_active: bool,
    pub is_verified: bool,
    pub created_at: Instant,
    pub updated_at: Instant,
}

impl User {
    pub fn duplicate(&self) -> (r: Self)
        ensures
            r == *self,
    {
        User {
            id: self.id,
            platform: self.platform.clone(),
            platform_user_id: self.platform_user_id.clone(),
            username: self.username.clone(),
            first_name: self.first_name.clone(),
            last_name: self.last_name.clone(),
            phone: self.phone.clone(),
            email: self.email.clone(),
            role: self.role.clone(),
            balance: self.balance,
            language_code: self.language_code.clone(),
            is_active: self.is_active,
            is_verified: self.is_verified,
            created_at: self.created_at,
            updated_at: self.updated_at,
        }
    }
}

/// An immutable ledger entry: a balance-affecting event for one user.
#[derive(Debug)]
pub struct Transaction {
    pub id: i32,
    pub user_id: i32,
    pub transaction_type: String,
    pub amount: Money,
    pub balance_after: Money,
    pub payment_id: Option<i32>,
    pub procurement_id: Option<i32>,
    pub description: String,
    pub created_at: Instant,
}

impl Transaction {
    pub fn duplicate(&self) -> (r: Self)
        ensures
            r == *self,
    {
        Transaction {
            id: self.id,
            user_id: self.user_id,
            transaction_type: self.transaction_type.clone(),
            amount: self.amount,
            balance_after: self.balance_after,
            payment_id: self.payment_id,
            procurement_id: self.procurement_id,
            description: self.description.clone(),
            created_at: self.created_at,
        }
    }
}

/// A payment record; created once, status transitions are out of scope.
#[derive(Debug)]
pub struct Payment {
    pub id: i32,
    pub user_id: i32,
    pub payment_type: String,
    pub amount: Money,
    pub status: String,
    pub external_id: Option<String>,
    pub provider: String,
    pub confirmation_url: String,
    pub procurement_id: Option<i32>,
    pub description: String,
    pub metadata: String,
    pub paid_at: Option<Instant>,
    pub created_at: Instant,
    pub updated_at: Instant,
}

impl Payment {
    pub fn duplicate(&self) -> (r: Self)
        ensures
            r == *self,
    {
        Payment {
            id: self.id,
            user_id: self.user_id,
            payment_type: self.payment_type.clone(),
            amount: self.amount,
            status: self.status.clone(),
            external_id: dup_opt_string(&self.external_id),
            provider: self.provider.clone(),
            confirmation_url: self.confirmation_url.clone(),
            procurement_id: self.procurement_id,
            description: self.description.clone(),
            metadata: self.metadata.clone(),
            paid_at: self.paid_at,
            created_at: self.created_at,
            updated_at: self.updated_at,
        }
    }
}

/// A chat message attached to a procurement.
#[derive(Debug)]
pub struct Message {
    pub id: i32,
    pub procurement_id: i32,
    pub user_id: Option<i32>,
    pub message_type: String,
    pub text: String,
    pub attachment_url: String,
    pub is_edited: bool,
    pub is_deleted: bool,
    pub created_at: Instant,
    pub updated_at: Instant,
}

impl Message {
    pub fn duplicate(&self) -> (r: Self)
        ensures
            r == *self,
    {
        Message {
            id: self.id,
            procurement_id: self.procurement_id,
            user_id: self.user_id,
            message_type: self.message_type.clone(),
            text: self.text.clone(),
            attachment_url: self.attachment_url.clone(),
            is_edited: self.is_edited,
            is_deleted: self.is_deleted,
            created_at: self.created_at,
            updated_at: self.updated_at,
        }
    }
}

/// A notification addressed to one user.
#[derive(Debug)]
pub struct Notification {
    pub id: i32,
    pub user_id: i32,
    pub notification_type: String,
    pub title: String,
    pub message: String,
    pub procurement_id: Option<i32>,
    pub is_read: bool,
    pub created_at: Instant,
}

impl Notification {
    pub fn duplicate(&self) -> (r: Self)
        ensures
            r == *self,
    {
        Notification {
            id: self.id,
            user_id: self.user_id,
            notification_type: self.notification_type.clone(),
            title: self.title.clone(),
            message: self.message.clone(),
            procurement_id: self.procurement_id,
            is_read: self.is_read,
            created_at: self.created_at,
        }
    }
}

/// A user's single dialog-state row; at most one per user, last write wins.
#[derive(Debug)]
pub struct UserSession {
    pub id: i32,
    pub user_id: i32,
    pub dialog_type: String,
    pub dialog_state: String,
    pub dialog_data: String,
    pub expires_at: Option<Instant>,
    pub created_at: Instant,
    pub updated_at: Instant,
}

impl UserSession {
    pub fn duplicate(&self) -> (r: Self)
        ensures
            r == *self,
    {
        UserSession {
            id: self.id,
            user_id: self.user_id,
            dialog_type: self.dialog_type.clone(),
            dialog_state: self.dialog_state.clone(),
            dialog_data: self.dialog_data.clone(),
            expires_at: self.expires_at,
            created_at: self.created_at,
            updated_at: self.updated_at,
        }
    }
}

// ---- Request inputs ----

/// Input of procurement creation.
#[derive(Debug)]
pub struct CreateProcurement {
    pub title: String,
    pub description: String,
    pub category_id: Option<i32>,
    pub organizer_id: i32,
    pub city: String,
    pub delivery_address: Option<String>,
    pub target_amount: Money,
    pub stop_at_amount: Option<Money>,
    pub unit: Option<String>,
    pub price_per_unit: Option<Money>,
    pub status: Option<String>,
    pub deadline: Instant,
    pub payment_deadline: Option<Instant>,
    pub image_url: Option<String>,
}

/// Input of a join request.
#[derive(Debug)]
pub struct JoinProcurement {
    pub user_id: Option<i32>,
    pub amount: Money,
    pub quantity: Option<Money>,
    pub notes: Option<String>,
}

/// Listing filters for procurements; conjunctive, each optional.
#[derive(Debug)]
pub struct ProcurementQuery {
    pub status: Option<String>,
    pub city: Option<String>,
    pub category_id: Option<i32>,
    pub organizer_id: Option<i32>,
}

/// Input of user creation.
#[derive(Debug)]
pub struct CreateUser {
    pub platform: Option<String>,
    pub platform_user_id: String,
    pub username: Option<String>,
    pub first_name: String,
    pub last_name: Option<String>,
    pub phone: Option<String>,
    pub email: Option<String>,
    pub role: Option<String>,
    pub language_code: Option<String>,
}

/// Partial user update: only supplied fields change.
#[derive(Debug)]
pub struct UpdateUser {
    pub first_name: Option<String>,
    pub last_name: Option<String>,
    pub phone: Option<String>,
    pub email: Option<String>,
    pub role: Option<String>,
}

/// Lookup by the natural user key.
#[derive(Debug)]
pub struct PlatformQuery {
    pub platform: Option<String>,
    pub platform_user_id: Option<String>,
}

/// Input of chat message creation.
#[derive(Debug)]
pub struct CreateMessage {
    pub procurement: i32,
    pub user: Option<i32>,
    pub text: String,
    pub message_type: Option<String>,
    pub attachment_url: Option<String>,
}

/// Listing filter for chat messages.
#[derive(Debug)]
pub struct MessageQuery {
    pub procurement: Option<i32>,
    pub user: Option<i32>,
}

/// Listing filter for notifications.
#[derive(Debug)]
pub struct NotificationQuery {
    pub user: Option<i32>,
}

/// Input of payment creation.
#[derive(Debug)]
pub struct CreatePayment {
    pub user_id: i32,
    pub payment_type: String,
    pub amount: Money,
    pub procurement_id: Option<i32>,
    pub description: Option<String>,
}

/// Input of a dialog-state upsert.
#[derive(Debug)]
pub struct SetSessionState {
    pub user_id: i32,
    pub dialog_type: Option<String>,
    pub dialog_state: Option<String>,
    pub dialog_data: Option<String>,
}

/// Input of a dialog-state clear.
#[derive(Debug)]
pub struct ClearSessionRequest {
    pub user_id: i32,
}

// ---- Response shapes ----

/// A procurement with its derived presentation fields.
#[derive(Debug)]
pub struct ProcurementResponse {
    pub id: i32,
    pub title: String,
    pub description: String,
    pub category_id: Option<i32>,
    pub organizer_id: i32,
    pub supplier_id: Option<i32>,
    pub city: String,
    pub delivery_address: String,
    pub target_amount: Money,
    pub current_amount: Money,
    pub stop_at_amount: Option<Money>,
    pub unit: String,
    pub price_per_unit: Option<Money>,
    pub status: String,
    pub status_display: String,
    pub deadline: Instant,
    pub payment_deadline: Option<Instant>,
    pub image_url: String,
    pub is_featured: bool,
    pub progress: i32,
    pub participant_count: i64,
    pub days_left: i64,
    pub can_join: bool,
    pub created_at: Instant,
    pub updated_at: Instant,
}

/// A user's public view.
#[derive(Debug)]
pub struct UserResponse {
    pub id: i32,
    pub platform: String,
    pub platform_user_id: String,
    pub username: String,
    pub first_name: String,
    pub last_name: String,
    pub full_name: String,
    pub phone: String,
    pub email: String,
    pub role: String,
    pub role_display: String,
    pub balance: Money,
    pub language_code: String,
    pub is_active: bool,
    pub is_verified: bool,
    pub created_at: Instant,
    pub updated_at: Instant,
}

/// The balance view: the cached balance beside the journal aggregates.
#[derive(Debug)]
pub struct UserBalanceResponse {
    pub balance: Money,
    pub total_deposited: Money,
    pub total_spent: Money,
    pub available: Money,
}

/// A user's role with its display label.
#[derive(Debug)]
pub struct RoleResponse {
    pub role: String,
    pub role_display: String,
}

/// A payment's status view.
#[derive(Debug)]
pub struct PaymentStatusResponse {
    pub id: i32,
    pub status: String,
    pub status_display: String,
    pub amount: Money,
    pub confirmation_url: String,
}

} // verus!
