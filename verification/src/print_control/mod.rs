pub mod state_machine;
pub mod job;
