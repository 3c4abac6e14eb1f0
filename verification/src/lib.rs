//! Verified core of an over-the-air firmware update server: the upgrade
//! state machine, gray-release device selection, signed download links,
//! HTTP byte-range parsing and the framing of encrypted secrets.

pub mod error;
pub mod digest;
pub mod range;
pub mod gray;
pub mod upgrade_state;
pub mod ambient;
pub mod hmac_service;
pub mod crypto;
pub mod firmware;
pub mod task;
pub mod models;
pub mod status;
pub mod monitor;
pub mod config;
pub mod sql;
pub mod text;
