use emb_public::common::error::EmbError;
use emb_public::common::events::{EventKind, PrinterEvent};
use emb_public::state_machine::machine::StateMachine;
use emb_public::state_machine::types::{PrinterState, StateMachineConfig, TransitionReason};

#[test]
fn test_valid_transitions() {
    let sm = StateMachine::default();

    assert!(sm.is_valid_transition(&PrinterState::Idle, &PrinterState::Preparing));
    assert!(sm.is_valid_transition(&PrinterState::Preparing, &PrinterState::Printing));
    assert!(sm.is_valid_transition(&PrinterState::Printing, &PrinterState::Paused));
    assert!(sm.is_valid_transition(&PrinterState::Paused, &PrinterState::Printing));
    assert!(sm.is_valid_transition(&PrinterState::Printing, &PrinterState::Complete));
    assert!(sm.is_valid_transition(&PrinterState::Complete, &PrinterState::Idle));
    assert!(sm.is_valid_transition(&PrinterState::Error, &PrinterState::Idle));
}

#[test]
fn test_invalid_transitions() {
    let sm = StateMachine::default();

    assert!(!sm.is_valid_transition(&PrinterState::Idle, &PrinterState::Printing));
    assert!(!sm.is_valid_transition(&PrinterState::Complete, &PrinterState::Printing));
    assert!(!sm.is_valid_transition(&PrinterState::Error, &PrinterState::Printing));
}

#[test]
fn test_state_transition() -> Result<(), EmbError> {
    let mut sm = StateMachine::default();

    assert_eq!(sm.get_state(), PrinterState::Idle);

    sm.start_preparing()?;
    assert_eq!(sm.get_state(), PrinterState::Preparing);

    // The transition is recorded once, from idle to preparing.
    let history = sm.get_transition_history();
    assert_eq!(history.len(), 1);
    assert_eq!(history[0].from_state, PrinterState::Idle);
    assert_eq!(history[0].to_state, PrinterState::Preparing);

    // The change is announced as one state-changed event naming both states.
    let event = PrinterEvent::state_change(history[0].from_state, history[0].to_state);
    assert_eq!(event.kind, EventKind::StateChanged);
    assert_eq!(event.source, "state_machine");
    assert_eq!(event.message, "State changed from Idle to Preparing");
    let expected: serde_json::Value = serde_json::from_str(r#"{"from":"Idle","to":"Preparing"}"#).unwrap();
    assert_eq!(event.data, Some(expected));

    Ok(())
}

#[test]
fn test_convenience_methods() -> Result<(), EmbError> {
    let mut sm = StateMachine::default();

    assert!(sm.can_start_print());
    assert!(!sm.can_pause());
    assert!(!sm.can_resume());
    assert!(!sm.can_cancel());

    sm.start_preparing()?;
    assert!(!sm.can_start_print());
    assert!(!sm.can_pause());
    assert!(!sm.can_resume());
    assert!(sm.can_cancel());

    sm.start_printing()?;
    assert!(!sm.can_start_print());
    assert!(sm.can_pause());
    assert!(!sm.can_resume());
    assert!(sm.can_cancel());

    sm.pause()?;
    assert!(!sm.can_start_print());
    assert!(!sm.can_pause());
    assert!(sm.can_resume());
    assert!(sm.can_cancel());

    Ok(())
}

#[test]
fn invalid_transition_reports_both_states() {
    let mut sm = StateMachine::default();
    match sm.start_printing() {
        Err(EmbError::InvalidTransition { from, to }) => {
            assert_eq!(from, "Idle");
            assert_eq!(to, "Printing");
        }
        other => panic!("unexpected result: {:?}", other),
    }
    assert_eq!(sm.get_state(), PrinterState::Idle);
    assert!(sm.get_transition_history().is_empty());
}

#[test]
fn cancel_from_printing_is_refused_by_the_transition_rules() {
    let mut sm = StateMachine::default();
    sm.start_preparing().unwrap();
    sm.start_printing().unwrap();
    assert!(sm.can_cancel());
    assert!(matches!(sm.cancel(), Err(EmbError::InvalidTransition { .. })));
    assert_eq!(sm.get_state(), PrinterState::Printing);
    sm.pause().unwrap();
    sm.cancel().unwrap();
    assert_eq!(sm.get_state(), PrinterState::Idle);
}

#[test]
fn cancel_from_idle_is_a_state_machine_error() {
    let mut sm = StateMachine::default();
    match sm.cancel() {
        Err(EmbError::StateMachine(m)) => assert_eq!(m, "Cannot cancel in current state"),
        other => panic!("unexpected result: {:?}", other),
    }
}

#[test]
fn history_keeps_only_the_newest_records() {
    let config = StateMachineConfig { enable_persistence: false, max_history_size: 2, transition_timeout_ms: 10 };
    let mut sm = StateMachine::new(config);
    sm.start_preparing().unwrap();
    sm.start_printing().unwrap();
    sm.pause().unwrap();
    let history = sm.get_transition_history();
    assert_eq!(history.len(), 2);
    assert_eq!(history[0].from_state, PrinterState::Preparing);
    assert_eq!(history[1].to_state, PrinterState::Paused);
    let latest = sm.get_latest_transition().unwrap();
    assert_eq!(latest.to_state, PrinterState::Paused);
}

#[test]
fn error_and_reset_cycle() {
    let mut sm = StateMachine::default();
    sm.enter_error("overheat".to_string()).unwrap();
    assert!(sm.is_error());
    assert!(!sm.is_operational());
    let latest = sm.get_latest_transition().unwrap();
    assert!(matches!(latest.reason, TransitionReason::Error(ref m) if m == "overheat"));
    sm.reset().unwrap();
    assert_eq!(sm.get_state(), PrinterState::Idle);
    assert!(sm.is_operational());
    assert!(sm.reset().is_err());
}
