//! A container runtime's decisions, formats and state rules, verified.
pub mod cgroups;
pub mod cli;
pub mod config;
pub mod container;
pub mod devices;
pub mod error;
pub mod namespaces;
pub mod sync;
pub mod text;
