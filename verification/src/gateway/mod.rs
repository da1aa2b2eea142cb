pub mod communication;
pub mod unix_socket;
pub mod websocket;
pub mod mqtt;
pub mod channel_manager;
