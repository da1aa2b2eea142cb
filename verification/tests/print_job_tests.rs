use emb_public::common::error::EmbError;
use emb_public::print_control::job::{
    MotionConfig, PrintController, PrintJob, PrintProgress, SafetyConfig, TemperaturePreset,
};
use emb_public::print_control::state_machine::PrintState;

fn f(bits: u32) -> f32 {
    f32::from_bits(bits)
}

#[test]
fn new_job_has_a_fresh_identifier() {
    let a = PrintJob::new();
    let b = PrintJob::new();
    assert_eq!(a.id.len(), 36);
    assert_eq!(a.id.chars().filter(|c| *c == '-').count(), 4);
    assert_ne!(a.id, b.id);
    assert!(a.started_at.is_none());
    assert!(a.file_name.is_empty());
}

#[test]
fn defaults_of_presets_and_configs() {
    let p = TemperaturePreset::default();
    assert_eq!(p.name, "PLA");
    assert_eq!(f(p.hotend_temp_bits), 200.0);
    assert_eq!(f(p.bed_temp_bits), 60.0);
    assert_eq!(p.fan_speed, 100);
    let m = MotionConfig::default();
    assert_eq!(f(m.max_feedrate_x_bits), 500.0);
    assert_eq!(f(m.max_feedrate_z_bits), 12.0);
    assert_eq!(f(m.max_feedrate_e_bits), 25.0);
    assert_eq!(f(m.acceleration_bits), 980.0);
    let s = SafetyConfig::default();
    assert_eq!(f(s.max_temp_hotend_bits), 300.0);
    assert_eq!(f(s.max_temp_bed_bits), 120.0);
    assert_eq!(f(s.min_extrude_temp_bits), 170.0);
    assert_eq!(s.watch_period_ms, 20000);
    let pr = PrintProgress::default();
    assert_eq!(pr.current_layer, 0);
}

#[test]
fn controller_lifecycle() {
    let mut c = PrintController::new();
    assert_eq!(c.get_state(), PrintState::Idle);
    let job = c.load_file_as("/tmp/models/cube.gcode", PrintJob::new_at("job-1".to_string(), 100)).unwrap();
    assert_eq!(job.file_name, "cube.gcode");
    assert_eq!(job.file_path, "/tmp/models/cube.gcode");
    c.start_at(false, 150).unwrap();
    assert_eq!(c.get_state(), PrintState::Printing);
    assert_eq!(c.get_current_job().unwrap().started_at, Some(150));
    c.pause().unwrap();
    assert_eq!(c.get_state(), PrintState::Paused);
    c.resume(false).unwrap();
    assert_eq!(c.get_state(), PrintState::Printing);
    c.update_progress_at(50.0f32.to_bits(), 7, 210, Some(60));
    let p = c.get_progress();
    assert_eq!(p.current_layer, 7);
    assert_eq!(p.elapsed_seconds, 60);
    assert_eq!(p.remaining_seconds, 60);
    c.stop();
    assert_eq!(c.get_state(), PrintState::Stopping);
    assert!(c.is_stop_requested());
}

#[test]
fn refused_transitions_name_the_state() {
    let mut c = PrintController::new();
    match c.pause() {
        Err(EmbError::StateMachine(m)) => assert_eq!(m, "Cannot pause from state Idle"),
        other => panic!("unexpected {:?}", other),
    }
    match c.resume(false) {
        Err(EmbError::StateMachine(m)) => assert_eq!(m, "Cannot resume from state Idle"),
        other => panic!("unexpected {:?}", other),
    }
    c.start_at(false, 1).unwrap();
    match c.start_at(false, 2) {
        Err(EmbError::StateMachine(m)) => assert_eq!(m, "Cannot start from state Printing"),
        other => panic!("unexpected {:?}", other),
    }
}

#[test]
fn safety_violation_blocks_start_and_resume() {
    let mut c = PrintController::new();
    match c.start_at(true, 1) {
        Err(EmbError::Safety(m)) => assert_eq!(m, "Safety violation detected, cannot start print"),
        other => panic!("unexpected {:?}", other),
    }
    assert_eq!(c.get_state(), PrintState::Idle);
    c.start_at(false, 1).unwrap();
    c.pause().unwrap();
    match c.resume(true) {
        Err(EmbError::Safety(m)) => assert_eq!(m, "Safety violation detected, cannot resume print"),
        other => panic!("unexpected {:?}", other),
    }
    assert_eq!(c.get_state(), PrintState::Paused);
}

#[test]
fn presets_are_found_by_name() {
    let mut c = PrintController::new();
    let presets = c.get_presets();
    assert_eq!(presets.len(), 2);
    assert_eq!(presets[1].name, "ABS");
    assert_eq!(f(presets[1].hotend_temp_bits), 240.0);
    assert_eq!(f(presets[1].bed_temp_bits), 100.0);
    c.add_preset(TemperaturePreset { name: "PETG".to_string(), hotend_temp_bits: 235.0f32.to_bits(), bed_temp_bits: 80.0f32.to_bits(), fan_speed: 50 });
    assert_eq!(c.apply_preset("PETG").unwrap().fan_speed, 50);
    match c.apply_preset("NYLON") {
        Err(EmbError::Config(m)) => assert_eq!(m, "Temperature preset 'NYLON' not found"),
        other => panic!("unexpected {:?}", other),
    }
}

#[test]
fn emergency_stop_stops() {
    let mut c = PrintController::new();
    c.start_at(false, 5).unwrap();
    c.emergency_stop().unwrap();
    assert_eq!(c.get_state(), PrintState::Stopping);
    assert!(c.is_stop_requested());
}
