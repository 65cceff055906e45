//! Update-and-supervision engine of a desktop launcher: directory ownership,
//! verified artifact installation, backend process supervision, self-update
//! and the installed-version registry.

pub mod error;
pub mod text;
pub mod ownership;
pub mod paths;
pub mod integrity;
pub mod install;
pub mod numeric;
pub mod supervisor;
pub mod registry;
pub mod self_update;
pub mod config;
pub mod document;
pub mod settings;
pub mod manifest;
