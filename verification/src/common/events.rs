//! Printer events: their kinds, severities and constructors. Delivering events to listeners
//! is the host's concern.

use vstd::prelude::*;
use vstd::string::*;
use crate::common::foreign::{new_uuid, unix_now_millis};
use crate::common::json::{make_json_string_object, json_string_object};
use crate::common::text::append_str;
use crate::state_machine::types::PrinterState;
use crate::state_machine::machine::printer_state_name;

verus! {

/// Kinds of events in the printer system.
#[derive(Debug, Clone, Copy, PartialEq, Eq, Structural)]
pub enum EventKind {
    StateChanged,
    StateTransitionRequested,
    StateTransitionFailed,
    PrintStarted,
    PrintPaused,
    PrintResumed,
    PrintCompleted,
    PrintCancelled,
    PrintFailed,
    TemperatureUpdate,
    PositionUpdate,
    LimitSwitchTriggered,
    MotorError,
    MessageReceived,
    MessageSent,
    ConnectionEstablished,
    ConnectionLost,
    DdsPublisherCreated,
    DdsSubscriptionCreated,
    DdsMessagePublished,
    DdsMessageReceived,
    SafetyWarning,
    PidTuneStarted,
    PidTuneProgress,
    PidTuneCycleComplete,
    PidTuneCompleted,
    PidTuneFailed,
    PidTuneCancelled,
    PidParamsApplied,
    PidTuneVerificationResult,
    Error,
    Warning,
    Info,
    Debug,
}

/// The display name of an event kind: the variant's name.
pub open spec fn event_kind_name(k: EventKind) -> Seq<char> {
    match k {
        EventKind::StateChanged => "StateChanged"@,
        EventKind::StateTransitionRequested => "StateTransitionRequested"@,
        EventKind::StateTransitionFailed => "StateTransitionFailed"@,
        EventKind::PrintStarted => "PrintStarted"@,
        EventKind::PrintPaused => "PrintPaused"@,
        EventKind::PrintResumed => "PrintResumed"@,
        EventKind::PrintCompleted => "PrintCompleted"@,
        EventKind::PrintCancelled => "PrintCancelled"@,
        EventKind::PrintFailed => "PrintFailed"@,
        EventKind::TemperatureUpdate => "TemperatureUpdate"@,
        EventKind::PositionUpdate => "PositionUpdate"@,
        EventKind::LimitSwitchTriggered => "LimitSwitchTriggered"@,
        EventKind::MotorError => "MotorError"@,
        EventKind::MessageReceived => "MessageReceived"@,
        EventKind::MessageSent => "MessageSent"@,
        EventKind::ConnectionEstablished => "ConnectionEstablished"@,
        EventKind::ConnectionLost => "ConnectionLost"@,
        EventKind::DdsPublisherCreated => "DdsPublisherCreated"@,
        EventKind::DdsSubscriptionCreated => "DdsSubscriptionCreated"@,
        EventKind::DdsMessagePublished => "DdsMessagePublished"@,
        EventKind::DdsMessageReceived => "DdsMessageReceived"@,
        EventKind::SafetyWarning => "SafetyWarning"@,
        EventKind::PidTuneStarted => "PidTuneStarted"@,
        EventKind::PidTuneProgress => "PidTuneProgress"@,
        EventKind::PidTuneCycleComplete => "PidTuneCycleComplete"@,
        EventKind::PidTuneCompleted => "PidTuneCompleted"@,
        EventKind::PidTuneFailed => "PidTuneFailed"@,
        EventKind::PidTuneCancelled => "PidTuneCancelled"@,
        EventKind::PidParamsApplied => "PidParamsApplied"@,
        EventKind::PidTuneVerificationResult => "PidTuneVerificationResult"@,
        EventKind::Error => "Error"@,
        EventKind::Warning => "Warning"@,
        EventKind::Info => "Info"@,
        EventKind::Debug => "Debug"@,
    }
}

impl EventKind {
    /// The display name of the kind.
    pub fn name(&self) -> (r: &'static str)
        ensures
            r@ == event_kind_name(*self),
    {
        match self {
            EventKind::StateChanged => "StateChanged",
            EventKind::StateTransitionRequested => "StateTransitionRequested",
            EventKind::StateTransitionFailed => "StateTransitionFailed",
            EventKind::PrintStarted => "PrintStarted",
            EventKind::PrintPaused => "PrintPaused",
            EventKind::PrintResumed => "PrintResumed",
            EventKind::PrintCompleted => "PrintCompleted",
            EventKind::PrintCancelled => "PrintCancelled",
            EventKind::PrintFailed => "PrintFailed",
            EventKind::TemperatureUpdate => "TemperatureUpdate",
            EventKind::PositionUpdate => "PositionUpdate",
            EventKind::LimitSwitchTriggered => "LimitSwitchTriggered",
            EventKind::MotorError => "MotorError",
            EventKind::MessageReceived => "MessageReceived",
            EventKind::MessageSent => "MessageSent",
            EventKind::ConnectionEstablished => "ConnectionEstablished",
            EventKind::ConnectionLost => "ConnectionLost",
            EventKind::DdsPublisherCreated => "DdsPublisherCreated",
            EventKind::DdsSubscriptionCreated => "DdsSubscriptionCreated",
            EventKind::DdsMessagePublished => "DdsMessagePublished",
            EventKind::DdsMessageReceived => "DdsMessageReceived",
            EventKind::SafetyWarning => "SafetyWarning",
            EventKind::PidTuneStarted => "PidTuneStarted",
            EventKind::PidTuneProgress => "PidTuneProgress",
            EventKind::PidTuneCycleComplete => "PidTuneCycleComplete",
            EventKind::PidTuneCompleted => "PidTuneCompleted",
            EventKind::PidTuneFailed => "PidTuneFailed",
            EventKind::PidTuneCancelled => "PidTuneCancelled",
            EventKind::PidParamsApplied => "PidParamsApplied",
            EventKind::PidTuneVerificationResult => "PidTuneVerificationResult",
            EventKind::Error => "Error",
            EventKind::Warning => "Warning",
            EventKind::Info => "Info",
            EventKind::Debug => "Debug",
        }
    }
}

/// Event severity levels.
#[derive(Debug, Clone, Copy, PartialEq, Eq, Structural)]
pub enum EventSeverity {
    Debug,
    Info,
    Warning,
    Error,
    Critical,
}

/// The display name of a severity: the variant's name.
pub open spec fn event_severity_name(s: EventSeverity) -> Seq<char> {
    match s {
        EventSeverity::Debug => "Debug"@,
        EventSeverity::Info => "Info"@,
        EventSeverity::Warning => "Warning"@,
        EventSeverity::Error => "Error"@,
        EventSeverity::Critical => "Critical"@,
    }
}

impl EventSeverity {
    /// The display name of the severity.
    pub fn name(&self) -> (r: &'static str)
        ensures
            r@ == event_severity_name(*self),
    {
        match self {
            EventSeverity::Debug => "Debug",
            EventSeverity::Info => "Info",
            EventSeverity::Warning => "Warning",
            EventSeverity::Error => "Error",
            EventSeverity::Critical => "Critical",
        }
    }
}

/// A printer event with its metadata; `timestamp_ms` is milliseconds since the Unix epoch.
#[derive(Debug)]
pub struct PrinterEvent {
    pub id: uuid::Uuid,
    pub kind: EventKind,
    pub timestamp_ms: i64,
    pub source: String,
    pub message: String,
    pub data: Option<serde_json::Value>,
    pub severity: EventSeverity,
}

impl PrinterEvent {
    /// A fresh informational event without data, stamped with a new identifier and the
    /// current time.
    pub fn new(kind: EventKind, source: String, message: String) -> (r: Self)
        ensures
            r.kind == kind,
            r.source == source,
            r.message == message,
            r.data is None,
            r.severity == EventSeverity::Info,
    {
        PrinterEvent {
            id: new_uuid(),
            kind,
            timestamp_ms: unix_now_millis(),
            source,
            message,
            data: None,
            severity: EventSeverity::Info,
        }
    }

    /// The same event with another severity.
    pub fn with_severity(self, severity: EventSeverity) -> (r: Self)
        ensures
            r.severity == severity,
            r.id == self.id,
            r.kind == self.kind,
            r.timestamp_ms == self.timestamp_ms,
            r.source == self.source,
            r.message == self.message,
            r.data == self.data,
    {
        let mut e = self;
        e.severity = severity;
        e
    }

    /// The same event carrying `data`.
    pub fn with_data(self, data: serde_json::Value) -> (r: Self)
        ensures
            r.data == Some(data),
            r.id == self.id,
            r.kind == self.kind,
            r.timestamp_ms == self.timestamp_ms,
            r.source == self.source,
            r.message == self.message,
            r.severity == self.severity,
    {
        let mut e = self;
        e.data = Some(data);
        e
    }

    /// An error event.
    pub fn error(source: String, message: String) -> (r: Self)
        ensures
            r.kind == EventKind::Error,
            r.severity == EventSeverity::Error,
            r.source == source,
            r.message == message,
            r.data is None,
    {
        PrinterEvent::new(EventKind::Error, source, message).with_severity(EventSeverity::Error)
    }

    /// The event of a printer state change: kind `StateChanged` from `state_machine`, the
    /// message naming both states, and the two names as the data's `from` and `to`.
    pub fn state_change(from_state: PrinterState, to_state: PrinterState) -> (r: Self)
        ensures
            r.kind == EventKind::StateChanged,
            r.source@ == "state_machine"@,
            r.message@ == "State changed from "@ + printer_state_name(from_state) + " to "@
                + printer_state_name(to_state),
            r.data == Some(
                json_string_object(
                    seq![("from"@, printer_state_name(from_state)), ("to"@, printer_state_name(to_state))],
                ),
            ),
            r.severity == EventSeverity::Info,
    {
        let mut message = String::from_str("State changed from ");
        append_str(&mut message, from_state.name());
        append_str(&mut message, " to ");
        append_str(&mut message, to_state.name());
        let entries = vec![
            (String::from_str("from"), String::from_str(from_state.name())),
            (String::from_str("to"), String::from_str(to_state.name())),
        ];
        proof {
            assert(crate::common::json::pairs_view(entries@) =~= seq![
                ("from"@, printer_state_name(from_state)),
                ("to"@, printer_state_name(to_state)),
            ]);
        }
        let data = make_json_string_object(entries);
        PrinterEvent::new(EventKind::StateChanged, String::from_str("state_machine"), message).with_data(data)
    }

    /// A warning event.
    pub fn warning(source: String, message: String) -> (r: Self)
        ensures
            r.kind == EventKind::Warning,
            r.severity == EventSeverity::Warning,
            r.source == source,
            r.message == message,
            r.data is None,
    {
        PrinterEvent::new(EventKind::Warning, source, message).with_severity(EventSeverity::Warning)
    }

    /// An informational event.
    pub fn info(source: String, message: String) -> (r: Self)
        ensures
            r.kind == EventKind::Info,
            r.severity == EventSeverity::Info,
            r.source == source,
            r.message == message,
            r.data is None,
    {
        PrinterEvent::new(EventKind::Info, source, message).with_severity(EventSeverity::Info)
    }
}

} // verus!
