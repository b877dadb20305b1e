//! Verified core of a small blog backend: upload checks, bearer-token
//! authentication, and the registry of live notification channels with its
//! broadcast.

pub mod handlers;
pub mod middleware;
pub mod models;
pub mod trusted;
pub mod ws;
