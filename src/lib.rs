//! Workspace and build orchestration: a template-expanding variable store,
//! layered workspace settings, build configs composed from fragments, and the
//! decisions on where and how a command runs.

pub mod bootstrap;
pub mod commands;
pub mod composer;
pub mod config;
pub mod constants;
pub mod context;
pub mod error;
pub mod global;
pub mod handler;
pub mod json;
pub mod settings;
pub mod text;
pub mod vars;
pub mod workspace;
