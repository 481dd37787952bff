//! The request-handling side: what its handlers decide before and after they
//! consult the database and the file system.

pub mod chat;
pub mod config;
pub mod file;
pub mod message;
pub mod user;
