use emb_public::common::debug::debug_flag;
use emb_public::core_client::{flag_outcome, CoreClientConfig};
use emb_public::safety::{any_failed, SafetyCheckResult, SafetyConfig, SafetyController};
use emb_public::common::events::EventSeverity;
use emb_public::state::device_state::{
    DeviceStateConfig, DeviceStateManager, MotionStats, MotionStatus, Position,
};

fn pos(x: f32) -> Position {
    Position { x_bits: x.to_bits(), y_bits: 0, z_bits: 0, e_bits: 0 }
}

#[test]
fn device_state_defaults() {
    let c = DeviceStateConfig::default();
    assert_eq!(c.sync_interval_ms, 1000);
    assert!(c.enable_cache);
    assert_eq!(c.history_size, 100);
    let m = DeviceStateManager::new(c, 10);
    assert_eq!(m.get_motion_status(), MotionStatus::Idle);
    assert_eq!(m.get_printer_status().state, "idle");
    assert_eq!(m.get_history().len(), 0);
}

#[test]
fn history_keeps_the_newest_snapshots() {
    let cfg = DeviceStateConfig { sync_interval_ms: 10, enable_cache: true, history_size: 2 };
    let mut m = DeviceStateManager::new(cfg, 0);
    for i in 0..5 {
        m.update_position(pos(i as f32));
        m.save_snapshot_at(i);
    }
    let h = m.get_history();
    assert_eq!(h.len(), 2);
    assert_eq!(h[0].timestamp_ms, 3);
    assert_eq!(h[1].timestamp_ms, 4);
    assert_eq!(f32::from_bits(h[1].position.x_bits), 4.0);
    let mut none = DeviceStateManager::new(DeviceStateConfig { history_size: 0, ..cfg }, 0);
    none.save_snapshot_at(1);
    assert!(none.get_history().is_empty());
}

#[test]
fn sync_applies_position_and_stats() {
    let mut m = DeviceStateManager::new(DeviceStateConfig::default(), 0);
    m.apply_sync(Some(pos(12.5)), Some(MotionStats { total_steps: 42, avg_speed_bits: 30.0f32.to_bits() }), 500, 500);
    assert_eq!(m.get_motion_status(), MotionStatus::Printing);
    assert!(m.get_flow_status().is_active);
    assert_eq!(f32::from_bits(m.get_flow_status().flow_rate_bits), 30.0);
    assert_eq!(f32::from_bits(m.get_position_data().x_bits), 12.5);
    assert_eq!(m.get_printer_status().state, "printing");
    assert_eq!(m.get_last_sync_time(), 500);
    assert_eq!(m.get_history().len(), 1);
    assert!(!m.is_stale_at(1000, 5000));
    assert!(m.is_stale_at(6000, 5000));
    m.apply_sync(None, Some(MotionStats { total_steps: 0, avg_speed_bits: 0 }), 700, 700);
    assert_eq!(m.get_motion_status(), MotionStatus::Idle);
    assert_eq!(f32::from_bits(m.get_position().x_bits), 12.5);
}

#[test]
fn safety_config_and_latch() {
    let c = SafetyConfig::default();
    assert_eq!(f32::from_bits(c.motion_limit("z").unwrap().max_bits), 400.0);
    assert_eq!(f32::from_bits(c.motion_limit("x").unwrap().max_bits), 300.0);
    assert!(c.motion_limit("e").is_none());
    let mut s = SafetyController::new(c);
    assert!(!s.is_emergency_stop_active());
    s.handle_emergency_stop().unwrap();
    assert!(s.is_emergency_stop_active());
    s.recover_from_error().unwrap();
    assert!(!s.is_emergency_stop_active());
    let results = vec![
        SafetyCheckResult::passed("motion_limits".to_string()),
        SafetyCheckResult::failed("motion_limits".to_string(), "too high".to_string(), EventSeverity::Critical),
    ];
    assert!(any_failed(&results));
    assert!(!any_failed(&results[..1].to_vec()));
}

#[test]
fn debug_switch_values() {
    assert!(debug_flag(None));
    assert!(debug_flag(Some("1")));
    assert!(debug_flag(Some("TRUE")));
    assert!(debug_flag(Some("True")));
    assert!(!debug_flag(Some("0")));
    assert!(!debug_flag(Some("yes")));
}

#[test]
fn client_settings_and_replies() {
    let c = CoreClientConfig::default();
    assert_eq!(c.server_addr, "127.0.0.1:9527");
    assert_eq!(c.connect_timeout_ms, 5000);
    assert_eq!(c.request_timeout_ms, 10000);
    assert!(c.auto_reconnect);
    assert_eq!(CoreClientConfig::with_server_addr("10.0.0.2:1").server_addr, "10.0.0.2:1");
    assert!(flag_outcome(true, None, "x").is_ok());
    assert_eq!(flag_outcome(false, None, "Connect failed").unwrap_err(), "Connect failed");
    assert_eq!(flag_outcome(false, Some("busy".to_string()), "Connect failed").unwrap_err(), "busy");
}
