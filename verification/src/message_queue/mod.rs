pub mod types;
pub mod queue;
