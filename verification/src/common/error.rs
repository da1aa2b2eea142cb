//! Error type of the library.

use vstd::prelude::*;

verus! {

/// Errors of the printer control library.
#[derive(Debug)]
pub enum EmbError {
    StateMachine(String),
    InvalidTransition { from: String, to: String },
    MessageQueue(String),
    Communication(String),
    /// A gateway (socket, MQTT) failure.
    Gateway(String),
    Protocol(String),
    Io(std::io::Error),
    Serialization(serde_json::Error),
    Timeout(u64),
    Configuration(String),
    Config(String),
    MotionControl(String),
    GCodeParse(String),
    FileNotFound(String),
    Hardware(String),
    Safety(String),
    FrameLost { seq: u8, retries: u32 },
    SerialFatal(String),
    CryptoError(String),
}

} // verus!
