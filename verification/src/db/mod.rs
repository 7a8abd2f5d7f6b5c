pub mod model_guard;
pub mod error;
pub mod migrations;
pub mod pool;
