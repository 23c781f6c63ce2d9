//! Verified core of the `winch` package manager: the decisions and data
//! handling behind installing, removing, searching, syncing and upgrading
//! packages. Network, file system and terminal work is left to the caller.

pub mod json;
pub mod text;
pub mod locations;
pub mod manifest;
pub mod install;
pub mod remove;
pub mod commands;
pub mod laws;
