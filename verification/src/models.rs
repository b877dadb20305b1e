//! The records that are stored and the bodies that requests and responses
//! carry.

pub mod authors;
pub mod posts;
pub mod response;
pub mod user;
