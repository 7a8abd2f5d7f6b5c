pub mod api;
pub mod auth;
pub mod backup;
pub mod cli;
pub mod config;
pub mod crypto;
pub mod db;
pub mod filter;
pub mod generation;
pub mod json;
pub mod text;
