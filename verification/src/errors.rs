//! The error taxonomy of the core: validation failures, missing records,
//! uniqueness conflicts and resource exhaustion, each mapped to the HTTP
//! status the API boundary answers with.

use vstd::prelude::*;

verus! {

/// Everything an engine operation can refuse with. Conflicts are typed
/// (`AlreadyJoined`, `UserAlreadyExists`) rather than sniffed out of a
/// storage error message, so a caller can always tell a duplicate from a
/// generic failure.
#[derive(Clone, Copy, Debug, PartialEq, Eq, Structural)]
pub enum AppError {
    /// A join request without a user id.
    MissingUserId,
    /// A user creation or lookup without a platform user id.
    MissingPlatformUserId,
    /// A procurement title that is empty after trimming.
    EmptyTitle,
    /// A procurement description that is empty after trimming.
    EmptyDescription,
    /// A procurement target amount that is not positive.
    NonPositiveTarget,
    /// A join attempt on a procurement whose status is not `active`.
    ProcurementNotActive,
    /// A second join by the same user on the same procurement.
    AlreadyJoined,
    /// A second user with the same (platform, platform user id) pair.
    UserAlreadyExists,
    /// The addressed record does not exist.
    NotFound,
    /// An amount that would leave the representable range of minor units.
    AmountOutOfRange,
    /// The id space of a table is exhausted.
    StorageFull,
}

impl AppError {
    /// The HTTP status the API boundary resolves this error to.
    pub open spec fn spec_status_code(self) -> u16 {
        match self {
            AppError::NotFound => 404,
            AppError::StorageFull => 500,
            _ => 400,
        }
    }

    /// True of the two uniqueness-conflict errors and of nothing else.
    pub open spec fn spec_is_conflict(self) -> bool {
        self == AppError::AlreadyJoined || self == AppError::UserAlreadyExists
    }

    pub fn status_code(&self) -> (c: u16)
        ensures
            c == self.spec_status_code(),
    {
        match self {
            AppError::NotFound => 404,
            AppError::StorageFull => 500,
            _ => 400,
        }
    }

    pub fn is_conflict(&self) -> (b: bool)
        ensures
            b == self.spec_is_conflict(),
    {
        match self {
            AppError::AlreadyJoined => true,
            AppError::UserAlreadyExists => true,
            _ => false,
        }
    }

    /// The human message the API boundary sends for this error.
    pub fn message(&self) -> (m: &'static str)
        ensures
            m@ == self.spec_message(),
    {
        match self {
            AppError::MissingUserId => "user_id is required",
            AppError::MissingPlatformUserId => "platform_user_id is required",
            AppError::EmptyTitle => "title is required",
            AppError::EmptyDescription => "description is required",
            AppError::NonPositiveTarget => "target_amount must be positive",
            AppError::ProcurementNotActive => "Procurement is not active",
            AppError::AlreadyJoined => "Already joined this procurement",
            AppError::UserAlreadyExists => "User with this platform and platform_user_id already exists",
            AppError::NotFound => "Not found.",
            AppError::AmountOutOfRange => "amount is out of range",
            AppError::StorageFull => "storage is full",
        }
    }

    pub open spec fn spec_message(self) -> Seq<char> {
        match self {
            AppError::MissingUserId => "user_id is required"@,
            AppError::MissingPlatformUserId => "platform_user_id is required"@,
            AppError::EmptyTitle => "title is required"@,
            AppError::EmptyDescription => "description is required"@,
            AppError::NonPositiveTarget => "target_amount must be positive"@,
            AppError::ProcurementNotActive => "Procurement is not active"@,
            AppError::AlreadyJoined => "Already joined this procurement"@,
            AppError::UserAlreadyExists => "User with this platform and platform_user_id already exists"@,
            AppError::NotFound => "Not found."@,
            AppError::AmountOutOfRange => "amount is out of range"@,
            AppError::StorageFull => "storage is full"@,
        }
    }
}

} // verus!
