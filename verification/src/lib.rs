//! Verified core of the Glimpser camera-monitoring service: request
//! policies, stream configuration handling, update management, motion
//! detection and the text utilities they share.
pub mod text;
pub mod crypto;
pub mod assoc;
pub mod error;
pub mod web;
pub mod update;
pub mod vision;
