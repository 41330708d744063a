//! Web-facing logic: request policies, API models, configuration documents
//! and the helpers the HTTP handlers rely on.
pub mod json;
pub mod bodylimits;
pub mod rbac;
pub mod ratelimit;
pub mod session;
pub mod models;
pub mod api_error;
pub mod templates;
pub mod stream_config;
pub mod capture_plan;
pub mod streams;
pub mod stream_form;
pub mod capture_manager;
pub mod password;
pub mod accounts;
pub mod pages;
pub mod public;
pub mod static_files;
pub mod alerts;
pub mod import_export;
pub mod ai;
pub mod views;
pub mod admin;
