//! Request shapes of the authentication and user-management endpoints.
//!
//! These carry plain values between the transport layer and the core; field
//! validation beyond what the core itself enforces (role assignability,
//! hierarchy checks) belongs to the transport layer.

use vstd::prelude::*;

use crate::pagination::{normalize_pagination, spec_normalized_page, spec_normalized_per_page};

verus! {

/// User registration request.
#[derive(Clone, Debug)]
pub struct RegisterRequest {
    pub email: String,
    pub password: String,
    pub full_name: Option<String>,
}

/// User login request.
#[derive(Clone, Debug)]
pub struct LoginRequest {
    pub email: String,
    pub password: String,
}

/// Token refresh request.
#[derive(Clone, Debug)]
pub struct RefreshTokenRequest {
    pub refresh_token: String,
}

/// Password change request.
#[derive(Clone, Debug)]
pub struct UpdatePasswordRequest {
    pub current_password: String,
    pub new_password: String,
}

/// User listing filter and page selection.
#[derive(Clone, Debug)]
pub struct UserQueryParams {
    pub page: Option<i64>,
    pub per_page: Option<i64>,
    pub role: Option<String>,
    pub is_active: Option<bool>,
    pub is_email_verified: Option<bool>,
    pub search: Option<String>,
}

impl UserQueryParams {
    /// The page and page size this query actually selects.
    pub fn normalized(&self) -> (r: (i64, i64))
        ensures
            r.0 == spec_normalized_page(self.page),
            r.1 == spec_normalized_per_page(self.per_page),
    {
        normalize_pagination(self.page, self.per_page)
    }
}

/// Contribution point adjustment request.
#[derive(Clone, Debug)]
pub struct AwardPointsRequest {
    pub points: i32,
    pub reason: String,
}

/// Role assignment request.
#[derive(Clone, Debug)]
pub struct UpdateUserRoleRequest {
    pub role: String,
}

/// Request to mark a notification read or unread.
#[derive(Clone, Copy, Debug)]
pub struct MarkNotificationReadRequest {
    pub read: bool,
}

} // verus!
