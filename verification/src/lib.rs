//! Verified core of the PrivChat client SDK.

pub mod client;
pub mod clock;
pub mod error;
pub mod events;
pub mod ids;
pub mod json;
pub mod order;
pub mod sdk;
pub mod storage;
pub mod text;
