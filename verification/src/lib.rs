//! Planning for a small launcher of local development virtual machines.
//!
//! The library decides, from plain values, what the launcher does: which
//! directories it makes sure exist, which configuration file it writes and
//! with what text, which command it hands to the shell, and what it prints.
//! Nothing here touches the file system or the process environment.

pub mod command;
pub mod config_file;
pub mod disk;
pub mod image;
pub mod plan;
pub mod platform;
pub mod text;
pub mod tool;
