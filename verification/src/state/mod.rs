pub mod device_state;
pub mod frontend;
