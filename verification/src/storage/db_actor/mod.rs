//! The owner of the users' databases: what it does on each command.

pub mod channels;
pub mod commands;
pub mod encryption;
pub mod received;
pub mod replies;
