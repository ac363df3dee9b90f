//! Runseal establishes one profile (env + argv + symlink) for one command
//! process tree. This crate holds the verified decision logic: profile URI
//! resolution, environment operations, argv injection, command-line parsing
//! and the request planning of the native tools.
pub mod injections;
pub mod json;
pub mod model;
pub mod parse;
pub mod permissions;
pub mod reply;
pub mod runtime;
pub mod table;
pub mod text;
pub mod tool;
pub mod wrappers;
