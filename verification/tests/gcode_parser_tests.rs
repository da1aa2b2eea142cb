use emb_public::api::types::{MCommand, MExecutionType};
use emb_public::gcode::parser::{CommandKind, GCodeParser, MotionCommand};
use emb_public::gcode::command::GCodeCategory;
use emb_public::gcode::file::{stream_line, PreprocessOptions};
use emb_public::gcode::converter::{device_action, ConvertError, DeviceAction, MachineRequest};
use emb_public::config::printer_config::FanParams;

/// The value a parameter text stands for, as the motion layer reads it.
fn num(v: Option<String>) -> Option<f32> {
    v.map(|s| s.parse::<f32>().unwrap())
}

fn val(s: String) -> f32 {
    s.parse::<f32>().unwrap()
}

#[test]
fn test_parse_empty_line() {
    let result = GCodeParser::parse_line("", 1).unwrap();
    assert!(matches!(result.kind, CommandKind::Empty));
}

#[test]
fn test_parse_comment() {
    let result = GCodeParser::parse_line("; This is a comment", 1).unwrap();
    assert!(matches!(result.kind, CommandKind::Empty));
}

#[test]
fn test_parse_g0() {
    let result = GCodeParser::parse_line("G0 X100 Y200 F3000", 1).unwrap();
    if let CommandKind::Motion(motion) = result.kind {
        if let MotionCommand::LinearMove { x, y, f, is_rapid, .. } = motion {
            assert_eq!(num(x), Some(100.0));
            assert_eq!(num(y), Some(200.0));
            assert_eq!(num(f), Some(3000.0));
            assert!(is_rapid);
        } else {
            panic!("Expected LinearMove");
        }
    } else {
        panic!("Expected Motion command");
    }
}

#[test]
fn test_parse_g1() {
    let result = GCodeParser::parse_line("G1 X50 Y75 Z0.2 E1.5 F1500", 1).unwrap();
    if let CommandKind::Motion(motion) = result.kind {
        if let MotionCommand::LinearMove { x, y, z, e, f, is_rapid, .. } = motion {
            assert_eq!(num(x), Some(50.0));
            assert_eq!(num(y), Some(75.0));
            assert_eq!(num(z), Some(0.2));
            assert_eq!(num(e), Some(1.5));
            assert_eq!(num(f), Some(1500.0));
            assert!(!is_rapid);
        } else {
            panic!("Expected LinearMove");
        }
    } else {
        panic!("Expected Motion command");
    }
}

#[test]
fn test_parse_m104() {
    let result = GCodeParser::parse_line("M104 S200", 1).unwrap();
    if let CommandKind::Machine(m_cmd) = result.kind {
        if let MCommand::SetHotendTemp { tool, temp } = m_cmd {
            assert_eq!(val(tool) as u8, 0);
            assert_eq!(val(temp), 200.0);
        } else {
            panic!("Expected SetHotendTemp");
        }
    } else {
        panic!("Expected Machine command");
    }
}

#[test]
fn test_parse_m109() {
    let result = GCodeParser::parse_line("M109 S210", 1).unwrap();
    if let CommandKind::Machine(m_cmd) = result.kind {
        if let MCommand::WaitHotendTemp { tool, temp } = m_cmd {
            assert_eq!(val(tool) as u8, 0);
            assert_eq!(val(temp), 210.0);
        } else {
            panic!("Expected WaitHotendTemp");
        }
    } else {
        panic!("Expected Machine command");
    }
}

#[test]
fn test_parse_m203() {
    let result = GCodeParser::parse_line("M203 X100 Y100 Z5 E50", 1).unwrap();
    if let CommandKind::Machine(m_cmd) = result.kind {
        if let MCommand::SetMaxVelocity { x, y, z, e } = m_cmd {
            assert_eq!(num(x), Some(100.0));
            assert_eq!(num(y), Some(100.0));
            assert_eq!(num(z), Some(5.0));
            assert_eq!(num(e), Some(50.0));
        } else {
            panic!("Expected SetMaxVelocity");
        }
    } else {
        panic!("Expected Machine command");
    }
}

#[test]
fn comments_whitespace_and_case() {
    let r = GCodeParser::parse_line("  g1 x5 ; move", 7).unwrap();
    assert_eq!(r.line_number, 7);
    assert_eq!(r.raw, "  g1 x5 ; move");
    match r.kind {
        CommandKind::Motion(MotionCommand::LinearMove { x, y, is_rapid, .. }) => {
            assert_eq!(x.as_deref(), Some("5"));
            assert_eq!(y, None);
            assert!(!is_rapid);
        }
        other => panic!("unexpected {:?}", other),
    }
    assert!(matches!(GCodeParser::parse_line("   ;only", 1).unwrap().kind, CommandKind::Empty));
    assert!(matches!(GCodeParser::parse_line("\t \t", 1).unwrap().kind, CommandKind::Empty));
}

#[test]
fn later_parameters_win_and_bad_numbers_are_skipped() {
    let r = GCodeParser::parse_line("G1 X1 X2 Yabc Z-.5e1 E", 1).unwrap();
    match r.kind {
        CommandKind::Motion(MotionCommand::LinearMove { x, y, z, e, .. }) => {
            assert_eq!(x.as_deref(), Some("2"));
            assert_eq!(y, None);
            assert_eq!(num(z), Some(-5.0));
            assert_eq!(e, None);
        }
        other => panic!("unexpected {:?}", other),
    }
}

#[test]
fn arcs_homing_and_modes() {
    match GCodeParser::parse_line("G2 X10 I5", 1).unwrap().kind {
        CommandKind::Motion(MotionCommand::ArcMove { i, j, is_cw, .. }) => {
            assert_eq!(i, "5");
            assert_eq!(j, "0");
            assert!(is_cw);
        }
        other => panic!("unexpected {:?}", other),
    }
    assert_eq!(
        GCodeParser::parse_line("G28 X Y0", 1).unwrap().kind,
        CommandKind::Motion(MotionCommand::Home { x: false, y: true, z: false })
    );
    assert_eq!(GCodeParser::parse_line("G90", 1).unwrap().kind, CommandKind::Motion(MotionCommand::AbsolutePositioning));
    assert_eq!(GCodeParser::parse_line("G21", 1).unwrap().kind, CommandKind::Motion(MotionCommand::Millimeters));
}

#[test]
fn unsupported_commands() {
    assert_eq!(
        GCodeParser::parse_line("G999 X1", 1).unwrap().kind,
        CommandKind::Unsupported { raw: "G999".to_string() }
    );
    assert_eq!(
        GCodeParser::parse_line("gx", 1).unwrap().kind,
        CommandKind::Unsupported { raw: "GX".to_string() }
    );
    assert_eq!(
        GCodeParser::parse_line("T0 ; tool", 1).unwrap().kind,
        CommandKind::Unsupported { raw: "T0".to_string() }
    );
}

#[test]
fn fan_defaults_and_execution_types() {
    match GCodeParser::parse_line("M106", 1).unwrap().kind {
        CommandKind::Machine(m) => {
            assert_eq!(m.execution_type(), MExecutionType::SyncSet);
            assert_eq!(m, MCommand::SetFanSpeed { index: "0".to_string(), speed: "255".to_string() });
        }
        other => panic!("unexpected {:?}", other),
    }
    match GCodeParser::parse_line("M190 S60", 1).unwrap().kind {
        CommandKind::Machine(m) => assert_eq!(m.execution_type(), MExecutionType::SyncWait),
        other => panic!("unexpected {:?}", other),
    }
    match GCodeParser::parse_line("M204 T100 P50", 1).unwrap().kind {
        CommandKind::Machine(m) => assert_eq!(m.execution_type(), MExecutionType::MotionParam),
        other => panic!("unexpected {:?}", other),
    }
}

#[test]
fn non_ascii_parameter_letters_are_refused_by_the_checked_parser() {
    assert!(GCodeParser::parse_line_checked("G1 é5", 1).is_none());
    assert!(GCodeParser::parse_line_checked("G1 →5", 1).is_some());
    assert!(GCodeParser::parse_line_checked("G1 X5", 1).is_some());
}

#[test]
fn streamed_lines_are_preprocessed_and_filtered() {
    let opts = PreprocessOptions::default();
    let (cat, cmd) = stream_line("  G1   X10 (move)  Y5 ; go", &opts).unwrap();
    assert_eq!(cat, GCodeCategory::LinearMove);
    assert_eq!(cmd.raw, "G1 X10 Y5");
    assert!(stream_line("   ; only a comment", &opts).is_none());
    let only_temps = PreprocessOptions { filter_categories: Some(vec![GCodeCategory::TemperatureControl]), ..PreprocessOptions::default() };
    assert!(stream_line("G1 X1", &only_temps).is_none());
    assert!(stream_line("M104 S200", &only_temps).is_some());
}

#[test]
fn motion_parameters_take_given_axes_only() {
    let mut p = emb_public::gcode::motion::MotionParams::new();
    assert_eq!(f32::from_bits(p.max_velocity_bits[2]), 10.0);
    assert_eq!(f32::from_bits(p.acceleration_bits[3]), 5000.0);
    assert_eq!(f32::from_bits(p.accel_params.print_bits), 1500.0);
    p.apply_acceleration(Some(1000.0f32.to_bits()), None, None, Some(2000.0f32.to_bits()));
    assert_eq!(f32::from_bits(p.acceleration_bits[0]), 1000.0);
    assert_eq!(f32::from_bits(p.acceleration_bits[1]), 3000.0);
    assert_eq!(f32::from_bits(p.acceleration_bits[3]), 2000.0);
    p.apply_steps_per_mm(None, None, Some(800.0f32.to_bits()), None);
    assert_eq!(f32::from_bits(p.steps_per_mm_bits[2]), 800.0);
    p.apply_accel_params(None, Some(1200.0f32.to_bits()), None);
    assert_eq!(f32::from_bits(p.accel_params.print_bits), 1200.0);
    assert_eq!(f32::from_bits(p.accel_params.travel_bits), 3000.0);
    p.apply_max_velocity(None, Some(250.0f32.to_bits()), None, None);
    assert_eq!(p.axis_max_velocity(1), Some(250.0f32.to_bits()));
    assert_eq!(p.axis_max_velocity(4), None);
}

#[test]
fn test_preprocess_options() {
    let options = PreprocessOptions::default();
    assert!(options.remove_comments);
    assert!(options.optimize_moves);
    assert!(options.filter_categories.is_none());
}

#[test]
fn test_gcode_file_parser() {
    let test_content = r#"
; Test G-code file
G21 ; Set units to millimeters
G90 ; Use absolute coordinates
G28 ; Home all axes
G1 X10 Y20 F3000 ; Move to position
M104 S200 ; Set hotend temperature
M140 S60 ; Set bed temperature
"#;
    let mut parser = emb_public::gcode::file::GCodeFileParser::new("test.gcode");
    for line in test_content.lines() {
        parser.analyze_line(line);
    }
    let (lines, commands, time) = parser.get_stats();
    assert!(lines > 0);
    assert!(commands > 0);
    assert!(time > 0);
    assert_eq!(commands, 6);
    assert_eq!(time, 10000 + 5000 + 5000 + 100 + 100);
}

#[test]
fn machine_requests_become_device_actions() {
    let fans = vec![FanParams { name: "part_fan".to_string(), pin: "PA8".to_string(), active_high: true, pwm_freq_hz: 100 }];
    assert_eq!(device_action(MachineRequest::HotendTemp { tool: 0 }, &fans), Ok(DeviceAction::SetTemperature { heater_id: 1 }));
    assert_eq!(device_action(MachineRequest::HotendTemp { tool: 2 }, &fans), Ok(DeviceAction::SetTemperature { heater_id: 3 }));
    assert_eq!(device_action(MachineRequest::BedTemp, &fans), Ok(DeviceAction::SetTemperature { heater_id: 0 }));
    assert_eq!(device_action(MachineRequest::FanSpeed { index: 0 }, &fans), Ok(DeviceAction::FanDuty { name: "part_fan".to_string() }));
    assert_eq!(device_action(MachineRequest::FanOff { index: 0 }, &fans), Ok(DeviceAction::FanOff { name: "part_fan".to_string() }));
    assert_eq!(device_action(MachineRequest::FanSpeed { index: 1 }, &fans), Err(ConvertError::InvalidFanIndex(1)));
    assert_eq!(device_action(MachineRequest::MotionParams, &vec![]), Ok(DeviceAction::MotionParamUpdate));
    assert_eq!(device_action(MachineRequest::ExtruderMode, &vec![]), Ok(DeviceAction::Nothing));
}
