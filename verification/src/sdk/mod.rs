//! The SDK's own logic: what it decides before and after it talks to the server and the database.

pub mod attachments;
pub mod callbacks;
pub mod channel_list;
pub mod config;
pub mod file_sending;
pub mod incoming;
pub mod outgoing;
pub mod reactions;
pub mod requests;
pub mod sending;
pub mod settings;
pub mod social;
pub mod state;
pub mod timeline;
pub mod wire;
