use emb_public::common::messages::{PositionData, PrinterStatus, SharedState, TempStatus, WebSocketMessage};
use emb_public::state::frontend::{shared_printer_status, shared_temperature, status_broadcast, FrontendCache};

#[test]
fn cache_starts_idle_and_takes_broadcasts() {
    let mut cache = FrontendCache::new();
    assert_eq!(cache.get_printer_status().state, "idle");
    cache.apply_message(&WebSocketMessage::Position { x_bits: 1.5f32.to_bits(), y_bits: 0, z_bits: 0, e_bits: 0 });
    assert_eq!(f32::from_bits(cache.get_position().x_bits), 1.5);
    cache.apply_message(&WebSocketMessage::State { from: "idle".to_string(), to: "printing".to_string() });
    assert_eq!(cache.get_printer_status().state, "printing");
    cache.apply_message(&WebSocketMessage::Temperature {
        hotend_current_bits: 210.0f32.to_bits(),
        hotend_target_bits: 215.0f32.to_bits(),
        bed_current_bits: 60.0f32.to_bits(),
        bed_target_bits: 60.0f32.to_bits(),
    });
    assert_eq!(f32::from_bits(cache.get_temperature().hotend_target_bits), 215.0);
    cache.apply_message(&WebSocketMessage::LimitSwitch { x: true, y: false, z: false });
    assert_eq!(cache.get_printer_status().state, "printing");
}

#[test]
fn status_broadcast_names_the_new_state_twice() {
    match status_broadcast(&PrinterStatus::new("paused".to_string())) {
        WebSocketMessage::State { from, to } => {
            assert_eq!(from, "paused");
            assert_eq!(to, "paused");
        }
        other => panic!("unexpected {:?}", other),
    }
}

#[test]
fn shared_record_reads() {
    let shared = SharedState { printer_state: 12, hotend_current_bits: 200.0f32.to_bits(), ..SharedState::default() };
    assert_eq!(shared_printer_status(&shared).state, "state_12");
    assert_eq!(f32::from_bits(shared_temperature(&shared).hotend_current_bits), 200.0);
    let t = TempStatus::new(1, 2, 3, 4);
    assert_eq!(t.clone().bed_target_bits, 4);
    let p = PositionData::zero();
    assert_eq!(p.x_bits, 0);
}
