pub mod auth;
pub mod messages;
pub mod rooms;
pub mod ws;
