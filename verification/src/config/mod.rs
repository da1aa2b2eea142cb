pub mod printer_config;
pub mod config_protocol;
pub mod adapter;
pub mod store;
