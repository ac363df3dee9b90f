//! The profile model: names, configuration, profiles and the native Forgejo call.
pub mod app;
pub mod config;
pub mod forgejo;
pub mod path;
pub mod profile;
pub mod symbol;
