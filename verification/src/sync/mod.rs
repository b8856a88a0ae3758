pub mod console;
pub mod fifo;
pub mod pipe;
