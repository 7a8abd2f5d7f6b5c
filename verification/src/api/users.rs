//! Requests and records of the user endpoints.
use vstd::prelude::*;

verus! {

#[derive(Clone, Debug)]
pub struct CreateUserRequest {
    pub email: String,
    pub password: String,
    pub permissions: Vec<String>,
}
#[derive(Clone, Debug)]
pub struct UserRecord {
    pub id: String,
    pub email: String,
    pub is_superadmin: bool,
    pub permissions: Vec<String>,
    pub created_at: String,
}
#[derive(Clone, Debug)]
pub struct UpdateUserRequest {
    pub email: Option<String>,
    pub password: Option<String>,
    pub permissions: Option<Vec<String>>,
}

} // verus!
