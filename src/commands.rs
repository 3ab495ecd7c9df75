//! The decisions behind each subcommand of the tool.
pub mod import_container;
pub mod install;
pub mod obs_fetch;
pub mod pull;
