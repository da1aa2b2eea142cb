pub mod types;
pub mod server;
pub mod manager;
