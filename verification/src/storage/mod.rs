//! Local storage.

pub mod advanced_features;
pub mod advanced_features_integration;
pub mod dao;
pub mod db_actor;
pub mod deduplication;
pub mod entities;
pub mod feature_store;
pub mod kv;
pub mod scripts;
pub mod sql;
