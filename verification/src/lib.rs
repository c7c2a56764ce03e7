//! Request logic of a chat backend: authentication, rooms, messages and
//! the live room channel, with the decisions each endpoint takes stated as
//! contracts. The HTTP server, database and pub/sub plumbing live outside
//! this crate and hand the library plain values.
pub mod errors;
pub mod json;
pub mod middleware;
pub mod handlers;
