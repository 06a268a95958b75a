pub mod auth;
pub mod cond;
