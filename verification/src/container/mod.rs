pub mod builder;
pub mod cleanup;
pub mod state;
