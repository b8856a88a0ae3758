pub mod v2;
