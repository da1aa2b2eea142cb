//! FlowPulse embedded public library: pin parsing, configuration frames, state machines,
//! queues and protocol framing for the 3D printer control system.

pub mod common;
pub mod config;
pub mod print_control;
pub mod state_machine;
pub mod dds;
pub mod message_queue;
pub mod gateway;
pub mod shared_memory;
pub mod api;
pub mod gcode;
pub mod state;
pub mod safety;
pub mod core_client;
