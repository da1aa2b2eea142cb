use emb_public::config::adapter::{
    build_printer_config, find_axis, select_motion_axes, ArcSection, CommunicationConfig,
    DriverConfig, ExtruderConfig, ExtruderMotionSection, HardwareConfig, HomingSection,
    JunctionSection, KinematicsSection, LoadedConfigs, MotionFileConfig, MotorConfig, MotorLimits,
    PrinterFileConfig, PrinterParamsSection, SegmentSection, SerialConfig, SixPointFile,
    VelocityProfileFile,
};
use emb_public::config::printer_config::{GCodeSettings, PrinterJsonConfig, VelocityProfileConfig};
use emb_public::config::store::ConfigStore;

fn b(x: f32) -> u32 {
    x.to_bits()
}

fn motor(axis: &str, steps: f32, speed: f32, accel: f32) -> MotorConfig {
    MotorConfig {
        axis: axis.to_string(),
        step_pin: "PA1".to_string(),
        dir_pin: "PA2".to_string(),
        enable_pin: "PA3".to_string(),
        steps_per_mm_bits: b(steps),
        max_speed_mm_per_s_bits: b(speed),
        max_accel_bits: b(accel),
        position_min_bits: b(0.0),
        position_max_bits: b(220.0),
        driver: None,
        extruder: None,
    }
}

fn six_point() -> SixPointFile {
    SixPointFile {
        start_accel_mm_s2_bits: b(1000.0),
        max_accel_mm_s2_bits: b(20000.0),
        final_decel_mm_s2_bits: b(1000.0),
        max_decel_mm_s2_bits: b(20000.0),
        start_speed_mm_s_bits: b(5.0),
        stop_speed_mm_s_bits: b(5.0),
        break_speed_mm_s_bits: b(50.0),
        min_distance_mm_bits: b(0.5),
    }
}

fn configs(motors: Vec<MotorConfig>, printer: Option<PrinterParamsSection>) -> LoadedConfigs {
    LoadedConfigs {
        hardware: HardwareConfig {
            communication: Some(CommunicationConfig {
                serial: Some(SerialConfig {
                    port: "/dev/ttyUSB0".to_string(),
                    baud_rate: 115200,
                    data_bits: 8,
                    parity: "None".to_string(),
                    stop_bits: 1,
                    timeout_ms: 2000,
                    flow_control: false,
                }),
            }),
            motor: motors,
        },
        motion: MotionFileConfig {
            kinematics: KinematicsSection {
                max_velocity_bits: b(400.0),
                max_acceleration_bits: b(20000.0),
                max_feed_rate_bits: b(500.0),
                jerk_bits: b(8.0),
            },
            junction: JunctionSection { square_corner_velocity_bits: b(5.0), junction_deviation_bits: b(0.05) },
            segment: SegmentSection::default(),
            homing: HomingSection::default(),
            arc: ArcSection::default(),
            extruder: ExtruderMotionSection::default(),
            velocity_profile: VelocityProfileFile { profile_type: "six_point".to_string(), six_point: Some(six_point()) },
        },
        printer: PrinterFileConfig {
            version: "2.0".to_string(),
            printer_model: "FP-1".to_string(),
            communication: None,
            printer,
            gcode_settings: Some(GCodeSettings { motion_batch_size: 8 }),
        },
    }
}

fn limits(n: usize) -> Vec<MotorLimits> {
    (0..n)
        .map(|_| MotorLimits { max_speed_mm_per_s: 300, max_accel: 20000, steps_per_mm: 80, position_min: 0, position_max: 220 })
        .collect()
}

#[test]
fn axes_come_from_motors_with_defaults() {
    let c = configs(vec![motor("x", 80.0, 400.0, 20000.0), motor("Z", 400.0, 20.0, 500.0)], None);
    let a = select_motion_axes(&c);
    assert_eq!(f32::from_bits(a.x.steps_per_mm_bits), 80.0);
    assert_eq!(f32::from_bits(a.x.max_speed_bits), 400.0);
    assert_eq!(f32::from_bits(a.z.steps_per_mm_bits), 400.0);
    assert_eq!(f32::from_bits(a.z.max_speed_bits), 20.0);
    assert_eq!(f32::from_bits(a.z.max_accel_bits), 500.0);
    // Y has no motor: 80.0 steps and the global limits.
    assert_eq!(f32::from_bits(a.y.steps_per_mm_bits), 80.0);
    assert_eq!(f32::from_bits(a.y.max_speed_bits), 400.0);
    assert_eq!(f32::from_bits(a.y.max_accel_bits), 20000.0);
    // No extruder: 93.0 steps, 50.0 mm/s, 5000.0 mm/s².
    assert_eq!(f32::from_bits(a.e.steps_per_mm_bits), 93.0);
    assert_eq!(f32::from_bits(a.e.max_speed_bits), 50.0);
    assert_eq!(f32::from_bits(a.e.max_accel_bits), 5000.0);
}

#[test]
fn later_motor_wins_and_e0_before_e() {
    let motors = vec![motor("E", 90.0, 40.0, 4000.0), motor("X", 1.0, 1.0, 1.0), motor("e0", 95.0, 45.0, 4500.0), motor("x", 2.0, 2.0, 2.0)];
    assert_eq!(find_axis(&motors, "X"), Some(3));
    assert_eq!(find_axis(&motors, "Y"), None);
    let a = select_motion_axes(&configs(motors, None));
    assert_eq!(f32::from_bits(a.x.steps_per_mm_bits), 2.0);
    assert_eq!(f32::from_bits(a.e.steps_per_mm_bits), 95.0);
}

#[test]
fn printer_config_from_motion_file_when_printer_section_missing() {
    let mut m = motor("X", 80.0, 300.0, 20000.0);
    m.driver = Some(DriverConfig { uart_pin: "PC10".to_string(), microsteps: 256 + 16, current_ma: 900, hold_current_ma: 400, stealthchop_threshold: 10 });
    m.extruder = Some(ExtruderConfig { nozzle_diameter_mm_bits: b(0.4), filament_diameter_mm_bits: b(1.75), max_flow_rate_bits: b(15.0) });
    let c = configs(vec![m], None);
    let p = build_printer_config(&c, &limits(1));
    assert_eq!(p.version, "2.0");
    assert_eq!(p.printer_model, "FP-1");
    assert_eq!(p.communication.serial.port, "/dev/ttyUSB0");
    assert_eq!(p.communication.serial.timeout_ms, 2000);
    assert_eq!(p.gcode_settings.motion_batch_size, 8);
    assert_eq!(p.motor.len(), 1);
    assert_eq!(p.motor[0].driver.uart_pin, "PC10");
    assert_eq!(p.motor[0].driver.microsteps, 16);
    assert_eq!(p.motor[0].extruder.nozzle_diameter_mm_bits, Some(b(0.4)));
    assert_eq!(f32::from_bits(p.printer.max_velocity_bits), 400.0);
    match &p.printer.velocity_profile {
        VelocityProfileConfig::SixPoint { six_point } => assert_eq!(f32::from_bits(six_point.max_accel_mm_s2_bits), 20000.0),
        other => panic!("unexpected {:?}", other),
    }
    assert_eq!(p.temperature_presets.len(), 2);
    assert_eq!(p.temperature_presets[1].name, "ABS");
}

#[test]
fn default_configuration_carries_pla_and_abs_presets() {
    let c = PrinterJsonConfig::default();
    assert_eq!(c.temperature_presets.len(), 2);
    let pla = &c.temperature_presets[0];
    assert_eq!(pla.name, "PLA");
    assert_eq!(f32::from_bits(pla.hotend_temp_bits), 200.0);
    assert_eq!(f32::from_bits(pla.bed_temp_bits), 60.0);
    assert_eq!(pla.chamber_temp_bits, None);
    assert_eq!(pla.fan_speed, 255);
    let abs = &c.temperature_presets[1];
    assert_eq!(abs.name, "ABS");
    assert_eq!(f32::from_bits(abs.hotend_temp_bits), 240.0);
    assert_eq!(f32::from_bits(abs.bed_temp_bits), 100.0);
    assert_eq!(abs.chamber_temp_bits.map(f32::from_bits), Some(50.0));
    assert_eq!(abs.fan_speed, 0);
    assert_eq!(c.limit_switch.z.position_endstop_bits, None);
}

#[test]
fn printer_section_profile_names() {
    let sec = |t: &str| PrinterParamsSection {
        max_velocity_bits: b(300.0),
        max_acceleration_bits: b(3000.0),
        square_corner_velocity_bits: b(5.0),
        junction_deviation_bits: b(0.05),
        velocity_profile: Some(VelocityProfileFile { profile_type: t.to_string(), six_point: None }),
    };
    let p = build_printer_config(&configs(vec![motor("X", 80.0, 1.0, 1.0)], Some(sec("SCurve"))), &limits(1));
    assert!(matches!(p.printer.velocity_profile, VelocityProfileConfig::SCurve { .. }));
    assert_eq!(f32::from_bits(p.printer.max_velocity_bits), 300.0);
    let p = build_printer_config(&configs(vec![motor("X", 80.0, 1.0, 1.0)], Some(sec("six_point"))), &limits(1));
    assert!(matches!(p.printer.velocity_profile, VelocityProfileConfig::Trapezoidal));
    let p = build_printer_config(&configs(vec![motor("X", 80.0, 1.0, 1.0)], Some(sec("linear"))), &limits(1));
    assert!(matches!(p.printer.velocity_profile, VelocityProfileConfig::Trapezoidal));
}

#[test]
fn store_keeps_a_valid_configuration() {
    let mut store = ConfigStore::new();
    assert!(!store.is_loaded());
    assert_eq!(store.get_config().unwrap_err(), "Configuration not loaded. Call load() first.");
    assert!(store.reload_dir().is_err());
    let bad = configs(vec![], None);
    assert_eq!(store.commit_load("cfg", bad, &limits(0)).unwrap_err(), "At least one motor must be configured");
    assert!(!store.is_loaded());
    store.commit_load("cfg", configs(vec![motor("X", 80.0, 300.0, 20000.0)], None), &limits(1)).unwrap();
    assert!(store.is_loaded());
    assert_eq!(store.reload_dir().unwrap(), "cfg");
    assert_eq!(store.get_config().unwrap().motor.len(), 1);
}
