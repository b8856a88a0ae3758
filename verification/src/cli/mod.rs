pub mod commands;
pub mod handle;
pub mod signal;
