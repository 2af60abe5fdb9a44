pub mod config;
pub mod page_size;
pub mod result;
pub mod runtime;
pub mod runwasm;
pub mod server;
pub mod stack;
pub mod task;
