pub mod devices;
pub mod terminal;
