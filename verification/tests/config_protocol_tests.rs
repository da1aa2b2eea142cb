use emb_public::common::pin_parser::parse_pin;
use emb_public::config::config_protocol::{
    create_config_frames, validate_config, ConfigFrameBuilder, FRAME_EOF, FRAME_SOF,
};
use emb_public::config::printer_config::{
    DriverParams, ExtruderParams, FanParams, InputPinParams, InputPinType, InputReportConfig, LimitSwitchAxis,
    MotorParams, OutputPinParams, OutputPinType, PrinterJsonConfig, InputEventConfig,
};

fn reference_crc8(data: &[u8]) -> u8 {
    let mut crc = 0u8;
    for byte in data {
        crc ^= byte;
        for _ in 0..8 {
            if (crc & 0x80) != 0 {
                crc = (crc << 1) ^ 0x31;
            } else {
                crc <<= 1;
            }
        }
    }
    crc
}

fn motor(axis: &str, step: &str, dir: &str, enable: &str, uart: &str) -> MotorParams {
    MotorParams {
        axis: axis.to_string(),
        step_pin: step.to_string(),
        dir_pin: dir.to_string(),
        enable_pin: enable.to_string(),
        max_speed_mm_per_s: 300,
        max_accel: 20000,
        steps_per_mm: 80,
        position_min: 0,
        position_max: 220,
        driver: DriverParams { uart_pin: uart.to_string(), ..DriverParams::default() },
        extruder: ExtruderParams::default(),
    }
}

#[test]
fn test_crc8() {
    let data = [0x04, 0x02, 0x00, 0x96, 0x00];
    let crc = ConfigFrameBuilder::crc8(&data);
    assert_eq!(crc, 15);
}

#[test]
fn test_parse_pin_in_config() {
    let pin = parse_pin("!PE4").unwrap();
    assert_eq!(pin.port, 4);
    assert_eq!(pin.pin, 4);
    assert!(pin.inverted);

    let pin2 = parse_pin("PA0").unwrap();
    assert_eq!(pin2.port, 0);
    assert_eq!(pin2.pin, 0);
    assert!(!pin2.inverted);
}

#[test]
fn crc_of_data_with_its_crc_is_zero() {
    let mut data = vec![0x10u8, 0x22, 0x9c, 0x00, 0xff];
    let crc = ConfigFrameBuilder::crc8(&data);
    data.push(crc);
    assert_eq!(ConfigFrameBuilder::crc8(&data), 0);
}

#[test]
fn status_query_frame_bytes() {
    let f = ConfigFrameBuilder::build_status_query_frame();
    assert_eq!(f, vec![FRAME_SOF, 0x01, 0x03, reference_crc8(&[0x01, 0x03]), FRAME_EOF]);
}

#[test]
fn set_temp_frame_bytes() {
    let f = ConfigFrameBuilder::build_set_temp_frame(1, 200.0f32.to_bits());
    let payload = [1u8, 0x43, 0x48, 0x00, 0x00];
    let mut body = vec![6u8, 0x24];
    body.extend_from_slice(&payload);
    let mut expected = vec![FRAME_SOF];
    expected.extend_from_slice(&body);
    expected.push(reference_crc8(&body));
    expected.push(FRAME_EOF);
    assert_eq!(f, expected);
}

#[test]
fn motor_frame_layout() {
    let m = motor("X", "PE3", "!PE2", "PE4", "");
    let f = ConfigFrameBuilder::build_motor_frame(&[m]);
    assert_eq!(f[0], FRAME_SOF);
    assert_eq!(f[1], 13);
    assert_eq!(f[2], 0x05);
    assert_eq!(&f[3..15], &[0x01, b'X', 4, 3, 4, 2, 1, 4, 4, 0, 0, 0]);
    assert_eq!(f[15], reference_crc8(&f[1..15]));
    assert_eq!(f[16], FRAME_EOF);
}

#[test]
fn limit_axis_bytes() {
    let a = LimitSwitchAxis { pin: "!PD2".to_string(), pull: "down".to_string(), active_high: true, position_endstop_bits: None };
    assert_eq!(ConfigFrameBuilder::limit_axis_to_bytes(&a), [(3 << 1) | 1, 2, (2 << 2) | (1 << 1), 0]);
    let b = LimitSwitchAxis { pin: "NC".to_string(), pull: "UP".to_string(), active_high: false, position_endstop_bits: Some(0.5f32.to_bits()) };
    assert_eq!(ConfigFrameBuilder::limit_axis_to_bytes(&b), [0xFE, 0xFF, 0, 0]);
}

#[test]
fn fan_frame_layout() {
    let fan = FanParams { name: "box_fan".to_string(), pin: "PB1".to_string(), active_high: true, pwm_freq_hz: 0x1234 };
    let f = ConfigFrameBuilder::build_fan_frame(&fan);
    assert_eq!(&f[2..10], &[0x05, 0x08, b'b', 1, 1, 1, 0x34, 0x12]);
}

#[test]
fn gpio_output_frames() {
    let o = OutputPinParams {
        name: "box_fan".to_string(),
        pin: "!PC3".to_string(),
        pin_type: OutputPinType::Pwm,
        active_high: true,
        pwm_freq_hz: 100,
        default_value_bits: 0,
        shutdown_value_bits: 0,
        max_value_bits: 1.0f32.to_bits(),
    };
    let frames = ConfigFrameBuilder::build_gpio_output_frames(&o);
    assert_eq!(frames.len(), 1);
    let f = &frames[0];
    assert_eq!(f[3], 0x07);
    assert_eq!(&f[5..12], b"box_fan");
    assert_eq!(f[12], 0);
    assert_eq!(&f[21..25], &[2, 3, 1, 0]);
    let bad = OutputPinParams { pin: "nope".to_string(), ..o };
    assert!(ConfigFrameBuilder::build_gpio_output_frames(&bad).is_empty());
}

#[test]
fn gpio_input_frames_defaults() {
    let i = InputPinParams {
        name: "runout".to_string(),
        pin: "PA1".to_string(),
        pin_type: InputPinType::Digital,
        pull: "Up".to_string(),
        active_high: false,
        debounce_ms: 20,
        event: Some(InputEventConfig { action: "Filament_Runout".to_string(), threshold_below_bits: None, threshold_above_bits: None }),
        report: Some(InputReportConfig { mode: "on_change".to_string(), trigger: Some("Both".to_string()), threshold_bits: None, interval_ms: Some(70000) }),
        calibration: None,
        adc_resolution: 12,
    };
    let frames = ConfigFrameBuilder::build_gpio_input_frames(&i);
    assert_eq!(frames.len(), 1);
    let f = &frames[0];
    let p = &f[3..f.len() - 2];
    assert_eq!(p[0], 0x08);
    assert_eq!(&p[18..23], &[0, 1, 0, 1, 0]);
    assert_eq!(&p[23..25], &[20, 0]);
    assert_eq!(&p[25..28], &[1, 0, 2]);
    assert_eq!(&p[28..30], &(70000u32 as u16).to_le_bytes());
    assert_eq!(&p[30..34], &0.01f32.to_be_bytes());
    assert_eq!(&p[34..50], &[0, 0, 0, 0, 0x3f, 0x80, 0, 0, 0, 0, 0, 0, 0x3f, 0x80, 0, 0]);
    assert_eq!(p[50], 12);
    assert_eq!(f[1] as usize, p.len() + 1);
}

#[test]
fn default_config_frames() {
    let c = PrinterJsonConfig::default();
    let frames = create_config_frames(&c);
    // no motors, all limit pins PA0: thermistor and heater frames for bed and hot end
    assert_eq!(frames.len(), 4);
    assert_eq!(frames[0][3], 0x20);
    assert_eq!(frames[0][4], 0);
    assert_eq!(frames[1][4], 1);
    assert_eq!(frames[2][3], 0x21);
    for f in &frames {
        assert_eq!(f[0], FRAME_SOF);
        assert_eq!(*f.last().unwrap(), FRAME_EOF);
        let n = f.len();
        assert_eq!(reference_crc8(&f[1..n - 1]), 0);
    }
}

#[test]
fn validate_config_messages() {
    let mut c = PrinterJsonConfig::default();
    assert_eq!(validate_config(&c), Err("At least one motor must be configured".to_string()));
    c.motor.push(motor("X", "PE3", "PE2", "!PE4", ""));
    assert_eq!(validate_config(&c), Ok(()));
    c.motor.push(motor("Y", "PE3", "bad", "!PE4", ""));
    assert_eq!(validate_config(&c), Err("Motor 1 has invalid dir_pin: bad".to_string()));
    c.motor[1].dir_pin = "PE1".to_string();
    c.motor[1].driver.uart_pin = "PZ9".to_string();
    assert_eq!(validate_config(&c), Err("Motor 1 has invalid driver.uart_pin: PZ9".to_string()));
}
