pub mod dsl;
pub mod sql;
