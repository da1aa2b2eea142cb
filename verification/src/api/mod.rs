pub mod framing;
pub mod types;
