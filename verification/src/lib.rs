pub mod auth;
pub mod crypto;
pub mod errors;
pub mod extract;
pub mod jwt;
pub mod models;
pub mod query;
pub mod store;
pub mod tasks;
pub mod validation;
