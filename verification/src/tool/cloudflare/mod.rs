//! The native `@cloudflare` call.
pub mod deed;
pub mod plan;
pub mod command;
pub mod secret;
