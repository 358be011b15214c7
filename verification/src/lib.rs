//! Tools for managing development containers through an external container
//! runtime: layered configuration resolution, container-identity (UID/GID)
//! resolution, synthesis of the exact argument vectors handed to the runtime,
//! and entry-path computation.
//!
//! This crate only computes: it resolves configuration, decides identities and
//! builds argument vectors and scripts. Running the resulting commands, file
//! and terminal I/O, and CLI parsing live outside the library.

pub mod args;
pub mod commands;
pub mod enter;
pub mod config;
pub mod errors;
pub mod identity;
pub mod plans;
pub mod script;
pub mod text;
