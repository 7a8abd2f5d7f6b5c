//! Requests and responses of the login and account endpoints.
use vstd::prelude::*;

verus! {

#[derive(Clone, Debug)]
pub struct LoginRequest {
    pub email: String,
    pub password: String,
}
#[derive(Clone, Debug)]
pub struct LoginResponse {
    pub token: String,
    pub email: String,
    pub is_superadmin: bool,
}
#[derive(Clone, Debug)]
pub struct AuthStatusResponse {
    pub email: String,
    pub is_superadmin: bool,
    pub password_is_default: bool,
    pub permissions: Vec<String>,
}
#[derive(Clone, Debug)]
pub struct AuthInfoResponse {
    pub default_admin_email: String,
    pub password_is_default: bool,
}
#[derive(Clone, Debug)]
pub struct ChangePasswordRequest {
    pub current_password: String,
    pub new_password: String,
}
#[derive(Clone, Debug)]
pub struct ChangePasswordResponse {
    pub changed: bool,
}

} // verus!
