//! The change-notification side: from a notification of the database to the
//! events pushed to connected users.

pub mod config;
pub mod event;
pub mod listener;
pub mod registry;
pub mod state;
pub mod stream;
