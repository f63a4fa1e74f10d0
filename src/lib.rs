//! A per-user manager of interpreter versions: version parsing and matching,
//! resolution of the version to use, the alias scheme that marks the active
//! version, and the decisions of the install and activation steps.

pub mod activation;
pub mod alias;
pub mod arch;
pub mod commands;
pub mod config;
pub mod error;
pub mod input_version;
pub mod install;
pub mod log_level;
pub mod remote_python_index;
pub mod resolve;
pub mod shell;
pub mod text;
pub mod version;
