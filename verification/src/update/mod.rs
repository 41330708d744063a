//! The self-update system: release checks, signature verification of
//! downloaded binaries, and the install, health-check and rollback run.
pub mod types;
pub mod signature;
pub mod release;
pub mod health;
pub mod service;
pub mod strategy;
