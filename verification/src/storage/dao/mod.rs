//! The statements on each table of the local database, and what their rows hold.

pub mod channel;
pub mod channel_member;
pub mod conversation;
pub mod features;
pub mod friend_dao;
pub mod group_dao;
pub mod group_member_dao;
pub mod mention;
pub mod message;
pub mod migration;
pub mod user;
