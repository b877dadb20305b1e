//! What each request handler decides, apart from the storage it talks to:
//! which uploads are accepted, what a response says and with which status,
//! and which notification goes out.

pub mod author_handler;
pub mod listing;
pub mod posts_handler;
pub mod reply;
pub mod user_handlers;
