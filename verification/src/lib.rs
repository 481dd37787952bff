//! Verified core of a multi-tenant chat backend: bearer-token verification,
//! change-notification parsing, recipient resolution and the per-user channel
//! registry that fans events out to connected clients.

pub mod auth;
pub mod error;
pub mod ids;
pub mod json;
pub mod jwt;
pub mod notify;
pub mod request;
pub mod server;
pub mod text;
pub mod types;
