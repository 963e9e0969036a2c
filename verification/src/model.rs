//! The records the backend stores and the messages it exchanges, held as
//! plain values.

use vstd::prelude::*;
use crate::role::UserRole;

verus! {

/// A point in time: seconds since the Unix epoch (UTC) and the nanoseconds past
/// that second, as `chrono` reports them for a `DateTime<Utc>`.
#[derive(Debug, Clone, Copy, PartialEq, Eq, Structural)]
pub struct Timestamp {
    pub secs: i64,
    pub nanos: u32,
}

/// The last second that `chrono` can represent (end of the year 262142).
pub const MAX_TIMESTAMP_SECS: i64 = 8_210_266_876_799;

impl Timestamp {
    /// Strictly earlier, in the order `chrono` gives `DateTime<Utc>`.
    pub open spec fn earlier_than(self, other: Timestamp) -> bool {
        self.secs < other.secs || (self.secs == other.secs && self.nanos < other.nanos)
    }

    /// Whether `self` is strictly earlier than `other`.
    pub fn is_before(&self, other: &Timestamp) -> (b: bool)
        ensures
            b == self.earlier_than(*other),
    {
        self.secs < other.secs || (self.secs == other.secs && self.nanos < other.nanos)
    }
}

/// A stored account.
#[derive(Debug, Clone)]
pub struct User {
    pub id: i64,
    pub username: String,
    pub password_hash: String,
    pub role: UserRole,
    pub created_at: Timestamp,
}

/// A stored login session.
#[derive(Debug, Clone)]
pub struct Session {
    pub id: String,
    pub user_id: i64,
    pub expires_at: Timestamp,
}

/// The account a request acts for, once its session is checked.
#[derive(Debug, Clone)]
pub struct AuthenticatedUser {
    pub id: i64,
    pub username: String,
    pub role: UserRole,
}

impl From<User> for AuthenticatedUser {
    fn from(user: User) -> (u: Self) {
        AuthenticatedUser { id: user.id, username: user.username, role: user.role }
    }
}

impl vstd::std_specs::convert::FromSpecImpl<User> for AuthenticatedUser {
    open spec fn obeys_from_spec() -> bool {
        true
    }

    open spec fn from_spec(user: User) -> AuthenticatedUser {
        AuthenticatedUser { id: user.id, username: user.username, role: user.role }
    }
}

/// Body of a signup request.
#[derive(Debug)]
pub struct SignupRequest {
    pub username: String,
    pub password: String,
    pub role: UserRole,
}

/// Body of a login request.
#[derive(Debug)]
pub struct LoginRequest {
    pub username: String,
    pub password: String,
}

/// Answer to a login or to `/api/me`.
#[derive(Debug)]
pub struct AuthResponse {
    pub user_id: i64,
    pub username: String,
    pub role: UserRole,
}

/// Body of a password change.
#[derive(Debug)]
pub struct ChangePasswordRequest {
    pub current_password: String,
    pub new_password: String,
}

/// Body of a username change.
#[derive(Debug)]
pub struct UpdateUsernameRequest {
    pub new_username: String,
}

/// Answer to `/api/profile`.
#[derive(Debug)]
pub struct ProfileResponse {
    pub id: i64,
    pub username: String,
    pub role: UserRole,
    pub created_at: String,
}

/// Body of an account deletion.
#[derive(Debug)]
pub struct DeleteAccountRequest {
    pub password: String,
}

/// Body of a product image change.
#[derive(Debug)]
pub struct UpdateProductImageRequest {
    pub image_url: String,
}

/// Body of an order status change.
#[derive(Debug)]
pub struct UpdateOrderStatusRequest {
    pub status: String,
}

/// Body of a filament image change.
#[derive(Debug)]
pub struct UpdateFilamentImageRequest {
    pub image_url: String,
}

/// Body of a role change.
#[derive(Debug)]
pub struct UpdateUserRoleRequest {
    pub role: UserRole,
}

/// One line of a new order.
#[derive(Debug)]
pub struct CreateOrderItemRequest {
    pub product_id: i64,
    pub filament_id: i64,
    pub quantity: i32,
}

/// Body of a new order.
#[derive(Debug)]
pub struct CreateOrderRequest {
    pub items: Vec<CreateOrderItemRequest>,
}

/// One account as an administrator sees it.
#[derive(Debug)]
pub struct UserSummary {
    pub id: i64,
    pub username: String,
    pub role: UserRole,
    pub created_at: String,
}

/// One order in the print queue as any signed-in user sees it.
#[derive(Debug, Clone, Copy, PartialEq, Eq, Structural)]
pub struct QueueItem {
    pub position: i32,
    pub total_items: i32,
    pub is_current_user: bool,
}

} // verus!
