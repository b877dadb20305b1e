//! Request preconditions: upload sniffing and bearer-token authentication.

pub mod auth;
pub mod mime_check;
