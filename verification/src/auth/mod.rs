pub mod bootstrap;
pub mod endpoint_permissions;
pub mod middleware;
pub mod password;
pub mod permissions;
pub mod rate_limit;
pub mod jwt;
pub mod permission_order;
