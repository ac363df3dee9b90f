//! The structured `@forgejo` call and its administration verbs.
pub mod deed;
pub mod seat;
pub mod admin;
pub mod token;
pub mod watch;
pub mod command;
