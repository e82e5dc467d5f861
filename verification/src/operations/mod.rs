//! The operations behind tinty's subcommands, as far as they decide and
//! compute; reading and writing files and running programs is left to the
//! caller.
pub mod apply;
pub mod info;
pub mod list;
pub mod update;
pub mod install;
pub mod sync;
pub mod setup;
pub mod gallery;
pub mod cycle;
pub mod init;
pub mod current;
pub mod set;
pub mod config;
pub mod build;
