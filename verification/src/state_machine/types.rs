//! State machine types and definitions.

use vstd::prelude::*;
use crate::common::foreign::clone_json_value;

verus! {

/// Printer states.
#[derive(Debug, Clone, Copy, PartialEq, Eq, Structural)]
pub enum PrinterState {
    /// Ready for commands.
    Idle,
    /// Preparing a print (loading the file, heating).
    Preparing,
    /// Printing.
    Printing,
    /// Print paused.
    Paused,
    /// Print finished.
    Complete,
    /// Error state.
    Error,
}

/// Why a transition happened.
#[derive(Debug)]
pub enum TransitionReason {
    UserRequest,
    SystemInitiated,
    Error(String),
    OperationComplete,
    HardwareEvent,
}

impl Clone for TransitionReason {
    fn clone(&self) -> (r: Self)
        ensures
            r == *self,
    {
        match self {
            TransitionReason::UserRequest => TransitionReason::UserRequest,
            TransitionReason::SystemInitiated => TransitionReason::SystemInitiated,
            TransitionReason::Error(s) => TransitionReason::Error(s.clone()),
            TransitionReason::OperationComplete => TransitionReason::OperationComplete,
            TransitionReason::HardwareEvent => TransitionReason::HardwareEvent,
        }
    }
}

/// A recorded state transition; `timestamp_ms` is milliseconds since the Unix epoch.
#[derive(Debug)]
pub struct StateTransition {
    pub id: uuid::Uuid,
    pub from_state: PrinterState,
    pub to_state: PrinterState,
    pub reason: TransitionReason,
    pub timestamp_ms: i64,
    pub data: Option<serde_json::Value>,
}

impl Clone for StateTransition {
    fn clone(&self) -> (r: Self)
        ensures
            r == *self,
    {
        StateTransition {
            id: self.id,
            from_state: self.from_state,
            to_state: self.to_state,
            reason: self.reason.clone(),
            timestamp_ms: self.timestamp_ms,
            data: match &self.data {
                Some(v) => Some(clone_json_value(v)),
                None => None,
            },
        }
    }
}

/// State machine configuration.
#[derive(Debug, Clone, Copy)]
pub struct StateMachineConfig {
    /// Enable automatic state persistence.
    pub enable_persistence: bool,
    /// Maximum number of transitions kept in the history.
    pub max_history_size: usize,
    /// Timeout for state transitions (milliseconds).
    pub transition_timeout_ms: u64,
}

impl Default for StateMachineConfig {
    fn default() -> (r: Self)
        ensures
            r.enable_persistence == true,
            r.max_history_size == 1000,
            r.transition_timeout_ms == 5000,
    {
        StateMachineConfig {
            enable_persistence: true,
            max_history_size: 1000,
            transition_timeout_ms: 5000,
        }
    }
}

} // verus!
