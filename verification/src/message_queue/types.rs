//! Messages exchanged between the printer's components, their priorities and the queue's
//! configuration and statistics. Instants are milliseconds since the Unix epoch.

use vstd::prelude::*;
use crate::common::foreign::{new_uuid, unix_now_millis, clone_json_value};

verus! {

/// Message priority levels, lowest first.
#[derive(Debug, Clone, Copy, PartialEq, Eq, PartialOrd, Ord, Structural)]
pub enum MessagePriority {
    Low,
    Normal,
    High,
    Critical,
}

/// The ordinal of a priority: 0 for `Low` up to 3 for `Critical`.
pub open spec fn priority_ordinal(p: MessagePriority) -> u8 {
    match p {
        MessagePriority::Low => 0,
        MessagePriority::Normal => 1,
        MessagePriority::High => 2,
        MessagePriority::Critical => 3,
    }
}

impl MessagePriority {
    /// The ordinal value of the priority.
    pub fn ordinal(&self) -> (r: u8)
        ensures
            r == priority_ordinal(*self),
    {
        match self {
            MessagePriority::Low => 0,
            MessagePriority::Normal => 1,
            MessagePriority::High => 2,
            MessagePriority::Critical => 3,
        }
    }
}

impl Default for MessagePriority {
    fn default() -> (r: Self)
        ensures
            r == MessagePriority::Normal,
    {
        MessagePriority::Normal
    }
}

/// Message types of the printer system.
#[derive(Debug, PartialEq, Eq, Hash)]
pub enum MessageType {
    SystemCommand,
    SystemResponse,
    SystemEvent,
    StateTransition,
    StateQuery,
    StateResponse,
    PrintStart,
    PrintPause,
    PrintResume,
    PrintStop,
    PrintComplete,
    PrintError,
    MoveCommand,
    MoveResponse,
    HomeCommand,
    HomeResponse,
    TemperatureSet,
    TemperatureGet,
    TemperatureUpdate,
    GcodeLine,
    GcodeResponse,
    HardwareStatus,
    HardwareError,
    HardwareCommand,
    NetworkMessage,
    SerialMessage,
    Custom(String),
}

impl Clone for MessageType {
    fn clone(&self) -> (r: Self)
        ensures
            r == *self,
    {
        match self {
            MessageType::SystemCommand => MessageType::SystemCommand,
            MessageType::SystemResponse => MessageType::SystemResponse,
            MessageType::SystemEvent => MessageType::SystemEvent,
            MessageType::StateTransition => MessageType::StateTransition,
            MessageType::StateQuery => MessageType::StateQuery,
            MessageType::StateResponse => MessageType::StateResponse,
            MessageType::PrintStart => MessageType::PrintStart,
            MessageType::PrintPause => MessageType::PrintPause,
            MessageType::PrintResume => MessageType::PrintResume,
            MessageType::PrintStop => MessageType::PrintStop,
            MessageType::PrintComplete => MessageType::PrintComplete,
            MessageType::PrintError => MessageType::PrintError,
            MessageType::MoveCommand => MessageType::MoveCommand,
            MessageType::MoveResponse => MessageType::MoveResponse,
            MessageType::HomeCommand => MessageType::HomeCommand,
            MessageType::HomeResponse => MessageType::HomeResponse,
            MessageType::TemperatureSet => MessageType::TemperatureSet,
            MessageType::TemperatureGet => MessageType::TemperatureGet,
            MessageType::TemperatureUpdate => MessageType::TemperatureUpdate,
            MessageType::GcodeLine => MessageType::GcodeLine,
            MessageType::GcodeResponse => MessageType::GcodeResponse,
            MessageType::HardwareStatus => MessageType::HardwareStatus,
            MessageType::HardwareError => MessageType::HardwareError,
            MessageType::HardwareCommand => MessageType::HardwareCommand,
            MessageType::NetworkMessage => MessageType::NetworkMessage,
            MessageType::SerialMessage => MessageType::SerialMessage,
            MessageType::Custom(s) => MessageType::Custom(s.clone()),
        }
    }
}

/// Processing status of a message.
#[derive(Debug, Clone, Copy, PartialEq, Eq, Structural)]
pub enum MessageStatus {
    Pending,
    Processing,
    Completed,
    Failed,
    Timeout,
    Cancelled,
}

/// A message in the queue.
#[derive(Debug)]
pub struct Message {
    pub id: uuid::Uuid,
    pub message_type: MessageType,
    pub priority: MessagePriority,
    pub payload: serde_json::Value,
    pub source: String,
    pub destination: Option<String>,
    pub status: MessageStatus,
    /// Creation instant.
    pub created_at_ms: i64,
    /// Instant processing started.
    pub started_at_ms: Option<i64>,
    /// Instant processing ended.
    pub completed_at_ms: Option<i64>,
    pub timeout_ms: Option<u64>,
    pub retry_count: u32,
    pub max_retries: u32,
    /// Correlates a response with its request.
    pub correlation_id: Option<uuid::Uuid>,
}

impl Clone for Message {
    fn clone(&self) -> (r: Self)
        ensures
            r == *self,
    {
        Message {
            id: self.id,
            message_type: self.message_type.clone(),
            priority: self.priority,
            payload: clone_json_value(&self.payload),
            source: self.source.clone(),
            destination: match &self.destination {
                Some(d) => Some(d.clone()),
                None => None,
            },
            status: self.status,
            created_at_ms: self.created_at_ms,
            started_at_ms: self.started_at_ms,
            completed_at_ms: self.completed_at_ms,
            timeout_ms: self.timeout_ms,
            retry_count: self.retry_count,
            max_retries: self.max_retries,
            correlation_id: self.correlation_id,
        }
    }
}

/// Whether a message whose processing started at `started` with timeout `timeout` has timed
/// out at `now`: more milliseconds than the timeout (read as a signed count) have passed.
pub open spec fn timed_out_at(timeout: Option<u64>, started: Option<i64>, now: i64) -> bool {
    match (timeout, started) {
        (Some(t), Some(s)) => now - s > (t as i64),
        _ => false,
    }
}

/// Whether a message may be retried: it failed or timed out and has retries left.
pub open spec fn retryable(m: Message) -> bool {
    m.retry_count < m.max_retries && (m.status == MessageStatus::Failed || m.status
        == MessageStatus::Timeout)
}

impl Message {
    /// A pending message of normal priority created now, with a new identifier, no
    /// destination, timeout or correlation, and three retries allowed.
    pub fn new(message_type: MessageType, source: String, payload: serde_json::Value) -> (r: Self)
        ensures
            r.message_type == message_type,
            r.source == source,
            r.payload == payload,
            r.priority == MessagePriority::Normal,
            r.destination is None,
            r.status == MessageStatus::Pending,
            r.started_at_ms is None,
            r.completed_at_ms is None,
            r.timeout_ms is None,
            r.retry_count == 0,
            r.max_retries == 3,
            r.correlation_id is None,
    {
        Message {
            id: new_uuid(),
            message_type,
            priority: MessagePriority::default(),
            payload,
            source,
            destination: None,
            status: MessageStatus::Pending,
            created_at_ms: unix_now_millis(),
            started_at_ms: None,
            completed_at_ms: None,
            timeout_ms: None,
            retry_count: 0,
            max_retries: 3,
            correlation_id: None,
        }
    }

    /// The same message with another priority.
    pub fn with_priority(self, priority: MessagePriority) -> (r: Self)
        ensures
            r == (Message { priority, ..self }),
    {
        let mut m = self;
        m.priority = priority;
        m
    }

    /// The same message with a destination.
    pub fn with_destination(self, destination: String) -> (r: Self)
        ensures
            r == (Message { destination: Some(destination), ..self }),
    {
        let mut m = self;
        m.destination = Some(destination);
        m
    }

    /// The same message with a timeout.
    pub fn with_timeout(self, timeout_ms: u64) -> (r: Self)
        ensures
            r == (Message { timeout_ms: Some(timeout_ms), ..self }),
    {
        let mut m = self;
        m.timeout_ms = Some(timeout_ms);
        m
    }

    /// The same message correlated with `correlation_id`.
    pub fn with_correlation_id(self, correlation_id: uuid::Uuid) -> (r: Self)
        ensures
            r == (Message { correlation_id: Some(correlation_id), ..self }),
    {
        let mut m = self;
        m.correlation_id = Some(correlation_id);
        m
    }

    /// The same message with another retry limit.
    pub fn with_max_retries(self, max_retries: u32) -> (r: Self)
        ensures
            r == (Message { max_retries, ..self }),
    {
        let mut m = self;
        m.max_retries = max_retries;
        m
    }

    /// Marks the message as being processed from instant `now_ms`.
    pub fn mark_processing_at(&mut self, now_ms: i64)
        ensures
            *final(self) == (Message {
                status: MessageStatus::Processing,
                started_at_ms: Some(now_ms),
                ..*old(self)
            }),
    {
        self.status = MessageStatus::Processing;
        self.started_at_ms = Some(now_ms);
    }

    /// Marks the message as being processed from now.
    pub fn mark_processing(&mut self)
        ensures
            final(self).status == MessageStatus::Processing,
            final(self).started_at_ms is Some,
            *final(self) == (Message {
                status: final(self).status,
                started_at_ms: final(self).started_at_ms,
                ..*old(self)
            }),
    {
        let now = unix_now_millis();
        self.mark_processing_at(now);
    }

    /// Ends processing at `now_ms` with the given final status.
    fn finish_at(&mut self, status: MessageStatus, now_ms: i64)
        ensures
            *final(self) == (Message { status, completed_at_ms: Some(now_ms), ..*old(self) }),
    {
        self.status = status;
        self.completed_at_ms = Some(now_ms);
    }

    /// Marks the message as completed at `now_ms`.
    pub fn mark_completed_at(&mut self, now_ms: i64)
        ensures
            *final(self) == (Message {
                status: MessageStatus::Completed,
                completed_at_ms: Some(now_ms),
                ..*old(self)
            }),
    {
        self.finish_at(MessageStatus::Completed, now_ms);
    }

    /// Marks the message as failed at `now_ms`.
    pub fn mark_failed_at(&mut self, now_ms: i64)
        ensures
            *final(self) == (Message {
                status: MessageStatus::Failed,
                completed_at_ms: Some(now_ms),
                ..*old(self)
            }),
    {
        self.finish_at(MessageStatus::Failed, now_ms);
    }

    /// Marks the message as timed out at `now_ms`.
    pub fn mark_timeout_at(&mut self, now_ms: i64)
        ensures
            *final(self) == (Message {
                status: MessageStatus::Timeout,
                completed_at_ms: Some(now_ms),
                ..*old(self)
            }),
    {
        self.finish_at(MessageStatus::Timeout, now_ms);
    }

    /// How long processing took, in milliseconds from its start to its end, where both are
    /// stamped (negative where the end was stamped before the start).
    pub fn processing_duration(&self) -> (r: Option<i128>)
        ensures
            r == match (self.started_at_ms, self.completed_at_ms) {
                (Some(s), Some(c)) => Some((c - s) as i128),
                _ => None::<i128>,
            },
    {
        match (self.started_at_ms, self.completed_at_ms) {
            (Some(s), Some(c)) => Some(c as i128 - s as i128),
            _ => None,
        }
    }

    /// Marks the message as completed now.
    pub fn mark_completed(&mut self)
        ensures
            final(self).status == MessageStatus::Completed,
            final(self).completed_at_ms is Some,
            *final(self) == (Message {
                status: final(self).status,
                completed_at_ms: final(self).completed_at_ms,
                ..*old(self)
            }),
    {
        let now = unix_now_millis();
        self.mark_completed_at(now);
    }

    /// Marks the message as failed now.
    pub fn mark_failed(&mut self)
        ensures
            final(self).status == MessageStatus::Failed,
            final(self).completed_at_ms is Some,
            *final(self) == (Message {
                status: final(self).status,
                completed_at_ms: final(self).completed_at_ms,
                ..*old(self)
            }),
    {
        let now = unix_now_millis();
        self.mark_failed_at(now);
    }

    /// Marks the message as timed out now.
    pub fn mark_timeout(&mut self)
        ensures
            final(self).status == MessageStatus::Timeout,
            final(self).completed_at_ms is Some,
            *final(self) == (Message {
                status: final(self).status,
                completed_at_ms: final(self).completed_at_ms,
                ..*old(self)
            }),
    {
        let now = unix_now_millis();
        self.mark_timeout_at(now);
    }

    /// Counts one more retry.
    pub fn increment_retry(&mut self)
        requires
            old(self).retry_count < u32::MAX,
        ensures
            *final(self) == (Message { retry_count: (old(self).retry_count + 1) as u32, ..*old(self) }),
    {
        self.retry_count = self.retry_count + 1;
    }

    /// Prepares a retry at `now_ms`: a message that may be retried counts one more retry and
    /// is pending again with no processing times; any other is marked failed at `now_ms`.
    /// Whether it will be retried is returned.
    pub fn prepare_retry_at(&mut self, now_ms: i64) -> (r: bool)
        ensures
            r == retryable(*old(self)),
            r ==> *final(self) == (Message {
                retry_count: (old(self).retry_count + 1) as u32,
                status: MessageStatus::Pending,
                started_at_ms: None,
                completed_at_ms: None,
                ..*old(self)
            }),
            !r ==> *final(self) == (Message {
                status: MessageStatus::Failed,
                completed_at_ms: Some(now_ms),
                ..*old(self)
            }),
    {
        if self.can_retry() {
            self.increment_retry();
            self.status = MessageStatus::Pending;
            self.started_at_ms = None;
            self.completed_at_ms = None;
            true
        } else {
            self.mark_failed_at(now_ms);
            false
        }
    }

    /// Whether the message failed or timed out and has retries left.
    pub fn can_retry(&self) -> (r: bool)
        ensures
            r == retryable(*self),
    {
        self.retry_count < self.max_retries && match self.status {
            MessageStatus::Failed | MessageStatus::Timeout => true,
            _ => false,
        }
    }

    /// Whether the message, whose processing has started, has run longer than its timeout at
    /// `now_ms`.
    pub fn is_timed_out_at(&self, now_ms: i64) -> (r: bool)
        ensures
            r == timed_out_at(self.timeout_ms, self.started_at_ms, now_ms),
    {
        match (self.timeout_ms, self.started_at_ms) {
            (Some(t), Some(s)) => {
                let limit: i64 = t as i64;
                (now_ms as i128) - (s as i128) > (limit as i128)
            },
            _ => false,
        }
    }

    /// Whether the message has run longer than its timeout now.
    pub fn is_timed_out(&self) -> (r: bool)
        ensures
            r ==> self.timeout_ms is Some && self.started_at_ms is Some,
            exists|now: i64| r == timed_out_at(self.timeout_ms, self.started_at_ms, now),
    {
        let now = unix_now_millis();
        self.is_timed_out_at(now)
    }

    /// How long processing took, once it has both started and ended.
    pub fn processing_duration_ms(&self) -> (r: Option<i128>)
        ensures
            r == (match (self.started_at_ms, self.completed_at_ms) {
                (Some(s), Some(c)) => Some((c - s) as i128),
                _ => None,
            }),
    {
        match (self.started_at_ms, self.completed_at_ms) {
            (Some(s), Some(c)) => Some((c as i128) - (s as i128)),
            _ => None,
        }
    }
}

/// Configuration of a message queue.
#[derive(Debug, Clone, Copy)]
pub struct MessageQueueConfig {
    pub max_queue_size: usize,
    pub max_concurrent: usize,
    pub default_timeout_ms: u64,
    pub enable_persistence: bool,
    pub batch_size: usize,
    pub check_interval_ms: u64,
}

impl Default for MessageQueueConfig {
    fn default() -> (r: Self)
        ensures
            r.max_queue_size == 10000,
            r.max_concurrent == 10,
            r.default_timeout_ms == 5000,
            r.enable_persistence == false,
            r.batch_size == 10,
            r.check_interval_ms == 100,
    {
        MessageQueueConfig {
            max_queue_size: 10000,
            max_concurrent: 10,
            default_timeout_ms: 5000,
            enable_persistence: false,
            batch_size: 10,
            check_interval_ms: 100,
        }
    }
}

/// Counters of a message queue. The mean processing time and the utilization are derived
/// from them: `total_processing_time_ms / total_processed` and `pending_count /
/// max_queue_size`.
#[derive(Debug, Clone, Copy)]
pub struct QueueStats {
    pub total_processed: u64,
    pub pending_count: usize,
    pub processing_count: usize,
    pub completed_count: u64,
    pub failed_count: u64,
    pub timeout_count: u64,
    /// Sum of the processing times of the processed messages that recorded one.
    pub total_processing_time_ms: i128,
}

} // verus!
