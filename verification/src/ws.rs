//! Real-time notifications: the connection registry, the life of a
//! session, and the broadcast to every connected client.

pub mod clients;
pub mod session;
pub mod ws_handler;
