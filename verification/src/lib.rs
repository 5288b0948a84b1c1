//! Core logic of the f69 feature-flag platform: configuration, credentials,
//! access tokens, and the decisions taken by the auth and flag services.

pub mod text;
pub mod config;
pub mod json;
pub mod ids;
pub mod password;
pub mod keys;
pub mod jwt;
pub mod auth_api;
pub mod flags;
pub mod auth_gate;
pub mod jwks_cache;
pub mod cors;
pub mod health;
