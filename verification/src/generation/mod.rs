pub mod endpoints;
pub mod vertex;
pub mod types;
pub mod prompt;
pub mod mock;
pub mod client_plan;
pub mod stream;
