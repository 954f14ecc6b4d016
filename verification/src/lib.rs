//! Scaffolding for a new C++ project: the directory skeleton, the build
//! descriptor, the helper scripts and the optional dependency and lint files,
//! computed from a validated configuration as a list of filesystem actions.

pub mod cmake;
pub mod config;
pub mod error;
pub mod generator;
pub mod plan;
pub mod registry;
pub mod run;
pub mod templates;
