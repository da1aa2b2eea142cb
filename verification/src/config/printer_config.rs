//! Printer configuration model.
//!
//! These structures hold the values of `printer.json` that the configuration logic reads.
//! Single-precision parameters that are sent to the device as raw IEEE-754 words are held as
//! their bit patterns (`*_bits`, the value `f32::to_bits` gives).

use vstd::prelude::*;
use vstd::string::*;

verus! {

pub fn default_status_report_interval_ms() -> (r: u32)
    ensures
        r == 1000,
{
    1000
}

pub fn default_serial_port() -> (r: String)
    ensures
        r@ == "COM3"@,
{
    String::from_str("COM3")
}

pub fn default_baud_rate() -> (r: u32)
    ensures
        r == 57600,
{
    57600
}

pub fn default_data_bits() -> (r: u8)
    ensures
        r == 8,
{
    8
}

pub fn default_stop_bits() -> (r: u8)
    ensures
        r == 1,
{
    1
}

pub fn default_timeout_ms() -> (r: u32)
    ensures
        r == 1000,
{
    1000
}

pub fn default_batch_size() -> (r: u8)
    ensures
        r == 4,
{
    4
}

pub fn default_s_curve_enabled() -> (r: bool)
    ensures
        r == false,
{
    false
}

pub fn default_adc_resolution() -> (r: u8)
    ensures
        r == 12,
{
    12
}

pub fn default_pid_interval() -> (r: u16)
    ensures
        r == 100,
{
    100
}

pub fn default_heater_pwm_freq() -> (r: u16)
    ensures
        r == 10,
{
    10
}

pub fn default_max_power() -> (r: u8)
    ensures
        r == 100,
{
    100
}

pub fn default_max_temp_deviation() -> (r: i16)
    ensures
        r == 5,
{
    5
}

pub fn default_min_temp_deviation() -> (r: i16)
    ensures
        r == -10,
{
    -10
}

pub fn default_heating_timeout_ms() -> (r: u32)
    ensures
        r == 300000,
{
    300000
}

pub fn default_sensor_fault_threshold() -> (r: u16)
    ensures
        r == 50,
{
    50
}

pub fn default_active_high() -> (r: bool)
    ensures
        r == true,
{
    true
}

pub fn default_pwm_freq() -> (r: u16)
    ensures
        r == 100,
{
    100
}

pub fn default_safety_check_interval_ms() -> (r: u64)
    ensures
        r == 1000,
{
    1000
}

pub fn default_heating_delay_secs() -> (r: u64)
    ensures
        r == 60,
{
    60
}

pub fn default_warning_action() -> (r: String)
    ensures
        r@ == "warn"@,
{
    String::from_str("warn")
}

pub fn default_critical_action() -> (r: String)
    ensures
        r@ == "pause_print"@,
{
    String::from_str("pause_print")
}

pub fn default_emergency_action() -> (r: String)
    ensures
        r@ == "emergency_stop"@,
{
    String::from_str("emergency_stop")
}

/// Serial link settings.
#[derive(Debug, Clone)]
pub struct SerialPortConfig {
    pub port: String,
    pub baud_rate: u32,
    pub data_bits: u8,
    pub parity: String,
    pub stop_bits: u8,
    pub timeout_ms: u32,
    pub flow_control: bool,
}

impl Default for SerialPortConfig {
    fn default() -> (r: Self)
        ensures
            r.port@ == "COM3"@,
            r.baud_rate == 57600,
            r.data_bits == 8,
            r.parity@ == "None"@,
            r.stop_bits == 1,
            r.timeout_ms == 1000,
            r.flow_control == false,
    {
        SerialPortConfig {
            port: default_serial_port(),
            baud_rate: default_baud_rate(),
            data_bits: default_data_bits(),
            parity: String::from_str("None"),
            stop_bits: default_stop_bits(),
            timeout_ms: default_timeout_ms(),
            flow_control: false,
        }
    }
}

/// Communication settings: serial link and status report interval.
#[derive(Debug, Clone)]
pub struct CommunicationConfig {
    pub serial: SerialPortConfig,
    pub status_report_interval_ms: u32,
}

impl Default for CommunicationConfig {
    /// The derived default: a default serial link and a zero interval (the 1000 ms default only
    /// applies when the field is missing from a parsed file).
    fn default() -> (r: Self)
        ensures
            r.serial.port@ == "COM3"@,
            r.serial.baud_rate == 57600,
            r.status_report_interval_ms == 0,
    {
        CommunicationConfig { serial: SerialPortConfig::default(), status_report_interval_ms: 0 }
    }
}

/// G-code processing settings.
#[derive(Debug, Clone)]
pub struct GCodeSettings {
    pub motion_batch_size: u8,
}

impl Default for GCodeSettings {
    fn default() -> (r: Self)
        ensures
            r.motion_batch_size == 4,
    {
        GCodeSettings { motion_batch_size: default_batch_size() }
    }
}

/// Stepper driver settings.
#[derive(Debug, Clone)]
pub struct DriverParams {
    pub uart_pin: String,
    pub microsteps: u8,
    pub current_ma: u16,
    pub hold_current_ma: u16,
    pub stealthchop_threshold: u32,
}

impl Default for DriverParams {
    fn default() -> (r: Self)
        ensures
            r.uart_pin@.len() == 0,
            r.microsteps == 16,
            r.current_ma == 800,
            r.hold_current_ma == 500,
            r.stealthchop_threshold == 999999,
    {
        DriverParams {
            uart_pin: String::new(),
            microsteps: 16,
            current_ma: 800,
            hold_current_ma: 500,
            stealthchop_threshold: 999999,
        }
    }
}

/// One motor: axis name, pins, limits and driver.
#[derive(Debug, Clone)]
pub struct MotorParams {
    pub axis: String,
    pub step_pin: String,
    pub dir_pin: String,
    pub enable_pin: String,
    pub max_speed_mm_per_s: u16,
    pub max_accel: u32,
    pub steps_per_mm: u32,
    pub position_min: i32,
    pub position_max: i32,
    pub driver: DriverParams,
    pub extruder: ExtruderParams,
}

/// Extruder geometry of a motor (single-precision bit patterns), each where given.
#[derive(Debug, Clone, Copy, PartialEq, Eq, Structural)]
pub struct ExtruderParams {
    pub nozzle_diameter_mm_bits: Option<u32>,
    pub filament_diameter_mm_bits: Option<u32>,
    pub max_flow_rate_bits: Option<u32>,
}

impl Default for ExtruderParams {
    /// Nothing given.
    fn default() -> (r: Self)
        ensures
            r == (ExtruderParams {
                nozzle_diameter_mm_bits: None,
                filament_diameter_mm_bits: None,
                max_flow_rate_bits: None,
            }),
    {
        ExtruderParams {
            nozzle_diameter_mm_bits: None,
            filament_diameter_mm_bits: None,
            max_flow_rate_bits: None,
        }
    }
}

/// The six-point velocity profile (single-precision bit patterns).
#[derive(Debug, Clone, Copy, PartialEq, Eq, Structural)]
pub struct SixPointConfig {
    pub start_accel_mm_s2_bits: u32,
    pub max_accel_mm_s2_bits: u32,
    pub final_decel_mm_s2_bits: u32,
    pub max_decel_mm_s2_bits: u32,
    pub start_speed_mm_s_bits: u32,
    pub stop_speed_mm_s_bits: u32,
    pub break_speed_mm_s_bits: u32,
    pub min_distance_mm_bits: u32,
}

/// 500.0, the default start acceleration and final deceleration.
pub const SIX_POINT_START_ACCEL_BITS: u32 = 0x43fa_0000;
/// 2000.0, the default peak acceleration and deceleration.
pub const SIX_POINT_MAX_ACCEL_BITS: u32 = 0x44fa_0000;
/// 10.0, the default start and stop speeds.
pub const SIX_POINT_START_SPEED_BITS: u32 = 0x4120_0000;
/// 50.0, the default break speed.
pub const SIX_POINT_BREAK_SPEED_BITS: u32 = 0x4248_0000;
/// 0.5, the default minimum distance.
pub const MIN_DISTANCE_BITS: u32 = 0x3f00_0000;
/// 50000.0, the default jerk limit.
pub const DEFAULT_JERK_BITS: u32 = 0x4743_5000;

impl Default for SixPointConfig {
    /// Accelerations 500.0 / 2000.0, decelerations 500.0 / 2000.0, speeds 10.0, 10.0 and 50.0,
    /// minimum distance 0.5.
    fn default() -> (r: Self)
        ensures
            r == (SixPointConfig {
                start_accel_mm_s2_bits: SIX_POINT_START_ACCEL_BITS,
                max_accel_mm_s2_bits: SIX_POINT_MAX_ACCEL_BITS,
                final_decel_mm_s2_bits: SIX_POINT_START_ACCEL_BITS,
                max_decel_mm_s2_bits: SIX_POINT_MAX_ACCEL_BITS,
                start_speed_mm_s_bits: SIX_POINT_START_SPEED_BITS,
                stop_speed_mm_s_bits: SIX_POINT_START_SPEED_BITS,
                break_speed_mm_s_bits: SIX_POINT_BREAK_SPEED_BITS,
                min_distance_mm_bits: MIN_DISTANCE_BITS,
            }),
    {
        SixPointConfig {
            start_accel_mm_s2_bits: SIX_POINT_START_ACCEL_BITS,
            max_accel_mm_s2_bits: SIX_POINT_MAX_ACCEL_BITS,
            final_decel_mm_s2_bits: SIX_POINT_START_ACCEL_BITS,
            max_decel_mm_s2_bits: SIX_POINT_MAX_ACCEL_BITS,
            start_speed_mm_s_bits: SIX_POINT_START_SPEED_BITS,
            stop_speed_mm_s_bits: SIX_POINT_START_SPEED_BITS,
            break_speed_mm_s_bits: SIX_POINT_BREAK_SPEED_BITS,
            min_distance_mm_bits: MIN_DISTANCE_BITS,
        }
    }
}

/// A per-axis jerk limit (single-precision bit pattern).
#[derive(Debug, Clone, Copy, PartialEq, Eq, Structural)]
pub struct AxisJerkConfig {
    pub max_jerk_bits: u32,
}

/// The S-curve velocity profile; per-axis limits are (axis, limit) pairs.
#[derive(Debug, Clone)]
pub struct SCurveConfig {
    pub enabled: bool,
    pub max_jerk_mm_s3_bits: u32,
    pub min_distance_mm_bits: u32,
    pub axis_specific: Option<Vec<(String, AxisJerkConfig)>>,
}

impl Default for SCurveConfig {
    /// Disabled, jerk 50000.0, minimum distance 0.5, no per-axis limits.
    fn default() -> (r: Self)
        ensures
            !r.enabled,
            r.max_jerk_mm_s3_bits == DEFAULT_JERK_BITS,
            r.min_distance_mm_bits == MIN_DISTANCE_BITS,
            r.axis_specific is None,
    {
        SCurveConfig {
            enabled: default_s_curve_enabled(),
            max_jerk_mm_s3_bits: DEFAULT_JERK_BITS,
            min_distance_mm_bits: MIN_DISTANCE_BITS,
            axis_specific: None,
        }
    }
}

/// The velocity profile the motion planner uses.
#[derive(Debug, Clone)]
pub enum VelocityProfileConfig {
    Trapezoidal,
    SCurve { s_curve: SCurveConfig },
    SixPoint { six_point: SixPointConfig },
}

impl Default for VelocityProfileConfig {
    /// Trapezoidal.
    fn default() -> (r: Self)
        ensures
            r is Trapezoidal,
    {
        VelocityProfileConfig::Trapezoidal
    }
}

/// Global motion limits of the printer (single-precision bit patterns) and its velocity
/// profile.
#[derive(Debug, Clone)]
pub struct PrinterParams {
    pub max_velocity_bits: u32,
    pub max_acceleration_bits: u32,
    pub square_corner_velocity_bits: u32,
    pub junction_deviation_bits: u32,
    pub velocity_profile: VelocityProfileConfig,
}

impl Default for PrinterParams {
    /// Velocity 400.0, acceleration 3000.0, square-corner velocity 5.0, junction deviation
    /// 0.05, trapezoidal profile.
    fn default() -> (r: Self)
        ensures
            r.max_velocity_bits == 0x43c8_0000,
            r.max_acceleration_bits == 0x453b_8000,
            r.square_corner_velocity_bits == 0x40a0_0000,
            r.junction_deviation_bits == 0x3d4c_cccd,
            r.velocity_profile is Trapezoidal,
    {
        PrinterParams {
            max_velocity_bits: 0x43c8_0000,
            max_acceleration_bits: 0x453b_8000,
            square_corner_velocity_bits: 0x40a0_0000,
            junction_deviation_bits: 0x3d4c_cccd,
            velocity_profile: VelocityProfileConfig::default(),
        }
    }
}

/// A named temperature preset (single-precision bit patterns).
#[derive(Debug, Clone)]
pub struct TemperaturePresetConfig {
    pub name: String,
    pub hotend_temp_bits: u32,
    pub bed_temp_bits: u32,
    pub chamber_temp_bits: Option<u32>,
    pub fan_speed: u8,
}

impl Default for TemperaturePresetConfig {
    /// PLA: hotend 200.0, bed 60.0, no chamber, fan 255.
    fn default() -> (r: Self)
        ensures
            r.name@ == "PLA"@,
            r.hotend_temp_bits == 0x4348_0000,
            r.bed_temp_bits == 0x4270_0000,
            r.chamber_temp_bits is None,
            r.fan_speed == 255,
    {
        TemperaturePresetConfig {
            name: String::from_str("PLA"),
            hotend_temp_bits: 0x4348_0000,
            bed_temp_bits: 0x4270_0000,
            chamber_temp_bits: None,
            fan_speed: 255,
        }
    }
}

/// The presets a default configuration carries: PLA as `TemperaturePresetConfig::default`
/// gives it, then ABS (hotend 240.0, bed 100.0, chamber 50.0, fan off).
pub open spec fn default_presets(p: Seq<TemperaturePresetConfig>) -> bool {
    &&& p.len() == 2
    &&& p[0].name@ == "PLA"@
    &&& p[0].hotend_temp_bits == 0x4348_0000
    &&& p[0].bed_temp_bits == 0x4270_0000
    &&& p[0].chamber_temp_bits is None
    &&& p[0].fan_speed == 255
    &&& p[1].name@ == "ABS"@
    &&& p[1].hotend_temp_bits == 0x4370_0000
    &&& p[1].bed_temp_bits == 0x42c8_0000
    &&& p[1].chamber_temp_bits == Some(0x4248_0000u32)
    &&& p[1].fan_speed == 0
}

/// Readings outside these bounds mean a faulty sensor (single-precision bit patterns).
#[derive(Debug, Clone, Copy, PartialEq, Eq, Structural)]
pub struct SensorFaultConfig {
    pub max_temp_bits: u32,
    pub min_temp_bits: u32,
}

impl Default for SensorFaultConfig {
    /// 300.0 and -50.0.
    fn default() -> (r: Self)
        ensures
            r == (SensorFaultConfig { max_temp_bits: 0x4396_0000, min_temp_bits: 0xc248_0000 }),
    {
        SensorFaultConfig { max_temp_bits: 0x4396_0000, min_temp_bits: 0xc248_0000 }
    }
}

/// Deviation levels from the target temperature (single-precision bit patterns).
#[derive(Debug, Clone, Copy, PartialEq, Eq, Structural)]
pub struct DeviationThresholdsConfig {
    pub warning_bits: u32,
    pub critical_bits: u32,
    pub emergency_bits: u32,
}

impl Default for DeviationThresholdsConfig {
    /// 10.0, 15.0 and 20.0.
    fn default() -> (r: Self)
        ensures
            r == (DeviationThresholdsConfig {
                warning_bits: 0x4120_0000,
                critical_bits: 0x4170_0000,
                emergency_bits: 0x41a0_0000,
            }),
    {
        DeviationThresholdsConfig {
            warning_bits: 0x4120_0000,
            critical_bits: 0x4170_0000,
            emergency_bits: 0x41a0_0000,
        }
    }
}

/// Safety settings of one heater.
#[derive(Debug, Clone)]
pub struct TempHeaterSafetyConfig {
    pub sensor_fault: SensorFaultConfig,
    pub deviation_thresholds: DeviationThresholdsConfig,
    pub heating_delay_secs: u64,
    pub actions: HeaterActionsConfig,
}

impl Default for TempHeaterSafetyConfig {
    /// Default thresholds, a heating delay of 60 s and the default actions.
    fn default() -> (r: Self)
        ensures
            r.sensor_fault == (SensorFaultConfig { max_temp_bits: 0x4396_0000, min_temp_bits: 0xc248_0000 }),
            r.heating_delay_secs == 60,
    {
        TempHeaterSafetyConfig {
            sensor_fault: SensorFaultConfig::default(),
            deviation_thresholds: DeviationThresholdsConfig::default(),
            heating_delay_secs: default_heating_delay_secs(),
            actions: HeaterActionsConfig::default(),
        }
    }
}

/// Temperature safety settings; per-heater settings are (heater, settings) pairs.
#[derive(Debug, Clone)]
pub struct TemperatureSafetyConfig {
    pub safety_check_interval_ms: u64,
    pub temp_change_threshold_bits: u32,
    pub heaters: Vec<(String, TempHeaterSafetyConfig)>,
}

impl Default for TemperatureSafetyConfig {
    /// Checked every 1000 ms, change threshold 1.0, no heaters.
    fn default() -> (r: Self)
        ensures
            r.safety_check_interval_ms == 1000,
            r.temp_change_threshold_bits == 0x3f80_0000,
            r.heaters@.len() == 0,
    {
        TemperatureSafetyConfig {
            safety_check_interval_ms: default_safety_check_interval_ms(),
            temp_change_threshold_bits: 0x3f80_0000,
            heaters: Vec::new(),
        }
    }
}

/// One end stop (its position as a single-precision bit pattern).
#[derive(Debug, Clone)]
pub struct LimitSwitchAxis {
    pub pin: String,
    pub pull: String,
    pub active_high: bool,
    pub position_endstop_bits: Option<u32>,
}

/// An end stop at its defaults: pin PA0, pull-up, active low, no end-stop position.
pub open spec fn default_limit_axis(a: LimitSwitchAxis) -> bool {
    &&& a.pin@ == "PA0"@
    &&& a.pull@ == "up"@
    &&& a.active_high == false
    &&& a.position_endstop_bits is None
}

impl Default for LimitSwitchAxis {
    fn default() -> (r: Self)
        ensures
            default_limit_axis(r),
    {
        LimitSwitchAxis {
            pin: String::from_str("PA0"),
            pull: String::from_str("up"),
            active_high: false,
            position_endstop_bits: None,
        }
    }
}

/// End stops of the three linear axes and the homing settings.
#[derive(Debug, Clone)]
pub struct LimitSwitchParams {
    pub x: LimitSwitchAxis,
    pub y: LimitSwitchAxis,
    pub z: LimitSwitchAxis,
    pub homing_speed_mm_per_s: u16,
    pub homing_dir_x: u8,
    pub homing_dir_y: u8,
    pub homing_dir_z: u8,
}

/// The end stops at their defaults, homing at 25 mm/s in direction 0 on every axis.
pub open spec fn default_limit_switch(l: LimitSwitchParams) -> bool {
    &&& default_limit_axis(l.x)
    &&& default_limit_axis(l.y)
    &&& default_limit_axis(l.z)
    &&& l.homing_speed_mm_per_s == 25
    &&& l.homing_dir_x == 0
    &&& l.homing_dir_y == 0
    &&& l.homing_dir_z == 0
}

impl Default for LimitSwitchParams {
    fn default() -> (r: Self)
        ensures
            default_limit_switch(r),
    {
        LimitSwitchParams {
            x: LimitSwitchAxis::default(),
            y: LimitSwitchAxis::default(),
            z: LimitSwitchAxis::default(),
            homing_speed_mm_per_s: 25,
            homing_dir_x: 0,
            homing_dir_y: 0,
            homing_dir_z: 0,
        }
    }
}

/// A thermistor input with its PID gains (gains as single-precision bit patterns).
#[derive(Debug, Clone)]
pub struct TempSensorParams {
    pub sensor_type: String,
    pub adc_pin: String,
    pub beta: u32,
    pub ntc_resistance_25c: u32,
    pub pullup_resistor: u32,
    pub min_temp: i16,
    pub max_temp: u16,
    pub kp_bits: u32,
    pub ki_bits: u32,
    pub kd_bits: u32,
    pub pid_interval_ms: u16,
}

/// A thermistor at its defaults: NTC100K on PA0, beta 3950, 100 kΩ at 25 °C, 4.7 kΩ
/// pull-up, -100..300 °C, gains 22.2 / 1.08 / 114.0, PID every 100 ms.
pub open spec fn default_temp_sensor(t: TempSensorParams) -> bool {
    &&& t.sensor_type@ == "NTC100K"@
    &&& t.adc_pin@ == "PA0"@
    &&& t.beta == 3950
    &&& t.ntc_resistance_25c == 100000
    &&& t.pullup_resistor == 4700
    &&& t.min_temp == -100
    &&& t.max_temp == 300
    &&& t.kp_bits == 0x41b1999a
    &&& t.ki_bits == 0x3f8a3d71
    &&& t.kd_bits == 0x42e40000
    &&& t.pid_interval_ms == 100
}

impl Default for TempSensorParams {
    /// NTC100K on PA0, beta 3950, 4.7 kΩ pull-up, -100..300 °C, gains 22.2 / 1.08 / 114.0.
    fn default() -> (r: Self)
        ensures
            default_temp_sensor(r),
    {
        TempSensorParams {
            sensor_type: String::from_str("NTC100K"),
            adc_pin: String::from_str("PA0"),
            beta: 3950,
            ntc_resistance_25c: 100000,
            pullup_resistor: 4700,
            min_temp: -100,
            max_temp: 300,
            kp_bits: 0x41b1999a,
            ki_bits: 0x3f8a3d71,
            kd_bits: 0x42e40000,
            pid_interval_ms: 100,
        }
    }
}

/// Bed and hot-end thermistors.
#[derive(Debug, Clone)]
pub struct TemperatureParams {
    pub hotbed: TempSensorParams,
    pub hotend: TempSensorParams,
}

impl Default for TemperatureParams {
    fn default() -> (r: Self)
        ensures
            default_temp_sensor(r.hotbed),
            default_temp_sensor(r.hotend),
    {
        TemperatureParams { hotbed: TempSensorParams::default(), hotend: TempSensorParams::default() }
    }
}

/// Heater supervision thresholds.
#[derive(Debug, Clone)]
pub struct HeaterSafetyConfig {
    pub max_temp_deviation: i16,
    pub min_temp_deviation: i16,
    pub heating_timeout_ms: u32,
    pub sensor_fault_threshold: u16,
}

impl Default for HeaterSafetyConfig {
    fn default() -> (r: Self)
        ensures
            r.max_temp_deviation == 5,
            r.min_temp_deviation == -10,
            r.heating_timeout_ms == 300000,
            r.sensor_fault_threshold == 50,
    {
        HeaterSafetyConfig {
            max_temp_deviation: default_max_temp_deviation(),
            min_temp_deviation: default_min_temp_deviation(),
            heating_timeout_ms: default_heating_timeout_ms(),
            sensor_fault_threshold: default_sensor_fault_threshold(),
        }
    }
}

/// A heater output.
#[derive(Debug, Clone)]
pub struct HeaterPin {
    pub pin: String,
    pub active_high: bool,
    pub pwm_freq_hz: u16,
    pub max_power: u8,
    pub safety: HeaterSafetyConfig,
}

/// A heater at its defaults: PA0, active high, 10 Hz, full power, deviations +5 / -10 °C,
/// 300 s heating timeout, sensor fault threshold 50.
pub open spec fn default_heater_pin(h: HeaterPin) -> bool {
    &&& h.pin@ == "PA0"@
    &&& h.active_high == true
    &&& h.pwm_freq_hz == 10
    &&& h.max_power == 100
    &&& h.safety.max_temp_deviation == 5
    &&& h.safety.min_temp_deviation == -10
    &&& h.safety.heating_timeout_ms == 300000
    &&& h.safety.sensor_fault_threshold == 50
}

impl Default for HeaterPin {
    fn default() -> (r: Self)
        ensures
            default_heater_pin(r),
    {
        HeaterPin {
            pin: String::from_str("PA0"),
            active_high: true,
            pwm_freq_hz: default_heater_pwm_freq(),
            max_power: default_max_power(),
            safety: HeaterSafetyConfig::default(),
        }
    }
}

/// Bed and hot-end heaters.
#[derive(Debug, Clone)]
pub struct HeaterParams {
    pub hotbed: HeaterPin,
    pub hotend: HeaterPin,
}

impl Default for HeaterParams {
    fn default() -> (r: Self)
        ensures
            default_heater_pin(r.hotbed),
            default_heater_pin(r.hotend),
    {
        HeaterParams { hotbed: HeaterPin::default(), hotend: HeaterPin::default() }
    }
}

/// A fan output.
#[derive(Debug, Clone)]
pub struct FanParams {
    pub name: String,
    pub pin: String,
    pub active_high: bool,
    pub pwm_freq_hz: u16,
}

impl Default for FanParams {
    fn default() -> (r: Self)
        ensures
            r.name@ == "Fan"@,
            r.pin@ == "PA0"@,
            r.active_high == true,
            r.pwm_freq_hz == 100,
    {
        FanParams {
            name: String::from_str("Fan"),
            pin: String::from_str("PA0"),
            active_high: true,
            pwm_freq_hz: 100,
        }
    }
}

/// The bed probe input.
#[derive(Debug, Clone)]
pub struct ProbeParams {
    pub pin: String,
    pub pull: String,
    pub active_high: bool,
}

/// The probe at its defaults: PA0, pull-up, active low.
pub open spec fn default_probe(p: ProbeParams) -> bool {
    &&& p.pin@ == "PA0"@
    &&& p.pull@ == "up"@
    &&& p.active_high == false
}

impl Default for ProbeParams {
    fn default() -> (r: Self)
        ensures
            default_probe(r),
    {
        ProbeParams {
            pin: String::from_str("PA0"),
            pull: String::from_str("up"),
            active_high: false,
        }
    }
}

/// Board pin-out notes (name/value pairs per interface).
#[derive(Debug, Clone)]
pub struct PinoutInfo {
    pub emergency_stop: Option<String>,
    pub uart: Option<Vec<(String, String)>>,
    pub usb: Option<Vec<(String, String)>>,
    pub usart3: Option<Vec<(String, String)>>,
}

/// No pin-out notes at all.
pub open spec fn default_pinout(p: PinoutInfo) -> bool {
    &&& p.emergency_stop is None
    &&& p.uart is None
    &&& p.usb is None
    &&& p.usart3 is None
}

impl Default for PinoutInfo {
    fn default() -> (r: Self)
        ensures
            default_pinout(r),
    {
        PinoutInfo { emergency_stop: None, uart: None, usb: None, usart3: None }
    }
}

/// Kind of a general-purpose output.
#[derive(Debug, Clone, Copy, PartialEq, Eq, Structural)]
pub enum OutputPinType {
    Pwm,
    Digital,
}

/// Kind of a general-purpose input.
#[derive(Debug, Clone, Copy, PartialEq, Eq, Structural)]
pub enum InputPinType {
    Digital,
    Analog,
}

/// A general-purpose output (values as single-precision bit patterns).
#[derive(Debug, Clone)]
pub struct OutputPinParams {
    pub name: String,
    pub pin: String,
    pub pin_type: OutputPinType,
    pub active_high: bool,
    pub pwm_freq_hz: u16,
    pub default_value_bits: u32,
    pub shutdown_value_bits: u32,
    pub max_value_bits: u32,
}

/// Event raised by an input (thresholds as single-precision bit patterns).
#[derive(Debug, Clone)]
pub struct InputEventConfig {
    pub action: String,
    pub threshold_below_bits: Option<u32>,
    pub threshold_above_bits: Option<u32>,
}

/// Reporting settings of an input (threshold as a single-precision bit pattern).
#[derive(Debug, Clone)]
pub struct InputReportConfig {
    pub mode: String,
    pub trigger: Option<String>,
    pub threshold_bits: Option<u32>,
    pub interval_ms: Option<u32>,
}

/// Linear calibration of an analog input (single-precision bit patterns).
#[derive(Debug, Clone)]
pub struct AnalogCalibrationConfig {
    pub offset_bits: u32,
    pub scale_bits: u32,
    pub min_value_bits: u32,
    pub max_value_bits: u32,
}

/// A general-purpose input.
#[derive(Debug, Clone)]
pub struct InputPinParams {
    pub name: String,
    pub pin: String,
    pub pin_type: InputPinType,
    pub pull: String,
    pub active_high: bool,
    pub debounce_ms: u16,
    pub event: Option<InputEventConfig>,
    pub report: Option<InputReportConfig>,
    pub calibration: Option<AnalogCalibrationConfig>,
    pub adc_resolution: u8,
}

/// General-purpose inputs and outputs.
#[derive(Debug, Clone)]
pub struct GpioConfig {
    pub output: Vec<OutputPinParams>,
    pub input: Vec<InputPinParams>,
}

impl Default for GpioConfig {
    fn default() -> (r: Self)
        ensures
            r.output@.len() == 0,
            r.input@.len() == 0,
    {
        GpioConfig { output: Vec::new(), input: Vec::new() }
    }
}

/// Temperature action names per level.
#[derive(Debug, Clone)]
pub struct TemperatureActionsConfig {
    pub warning: String,
    pub critical: String,
    pub emergency: String,
}

impl Default for TemperatureActionsConfig {
    fn default() -> (r: Self)
        ensures
            r.warning@ == "warn"@,
            r.critical@ == "pause_print"@,
            r.emergency@ == "emergency_stop"@,
    {
        TemperatureActionsConfig {
            warning: default_warning_action(),
            critical: default_critical_action(),
            emergency: default_emergency_action(),
        }
    }
}

/// Actions for low and high temperature excursions.
#[derive(Debug, Clone)]
pub struct HeaterActionsConfig {
    pub low_temp: TemperatureActionsConfig,
    pub high_temp: TemperatureActionsConfig,
}

impl Default for HeaterActionsConfig {
    fn default() -> (r: Self)
        ensures
            r.low_temp.warning@ == "warn"@,
            r.low_temp.critical@ == "pause_print"@,
            r.low_temp.emergency@ == "emergency_stop"@,
            r.high_temp.warning@ == "warn"@,
            r.high_temp.critical@ == "pause_print"@,
            r.high_temp.emergency@ == "emergency_stop"@,
    {
        HeaterActionsConfig {
            low_temp: TemperatureActionsConfig::default(),
            high_temp: TemperatureActionsConfig::default(),
        }
    }
}

/// The printer configuration.
#[derive(Debug, Clone)]
pub struct PrinterJsonConfig {
    pub version: String,
    pub printer_model: String,
    pub communication: CommunicationConfig,
    pub printer: PrinterParams,
    pub gcode_settings: GCodeSettings,
    pub motor: Vec<MotorParams>,
    pub limit_switch: LimitSwitchParams,
    pub temperature: TemperatureParams,
    pub heater: HeaterParams,
    pub fan: Vec<FanParams>,
    pub probe: ProbeParams,
    pub pinout: PinoutInfo,
    pub gpio: GpioConfig,
    pub temperature_presets: Vec<TemperaturePresetConfig>,
    pub temperature_safety: Option<TemperatureSafetyConfig>,
}

impl Default for PrinterJsonConfig {
    /// Version "1.0", model "Default", no motors, fans or GPIO, the PLA and ABS presets,
    /// every other section at its default.
    fn default() -> (r: Self)
        ensures
            r.version@ == "1.0"@,
            r.printer_model@ == "Default"@,
            r.motor@.len() == 0,
            r.fan@.len() == 0,
            r.gpio.output@.len() == 0,
            r.gpio.input@.len() == 0,
            default_limit_switch(r.limit_switch),
            default_temp_sensor(r.temperature.hotbed),
            default_temp_sensor(r.temperature.hotend),
            default_heater_pin(r.heater.hotbed),
            default_heater_pin(r.heater.hotend),
            default_probe(r.probe),
            default_pinout(r.pinout),
            r.gcode_settings.motion_batch_size == 4,
            r.printer.max_velocity_bits == 0x43c8_0000,
            r.printer.velocity_profile is Trapezoidal,
            default_presets(r.temperature_presets@),
            r.temperature_safety is None,
    {
        PrinterJsonConfig {
            version: String::from_str("1.0"),
            printer_model: String::from_str("Default"),
            communication: CommunicationConfig::default(),
            printer: PrinterParams::default(),
            gcode_settings: GCodeSettings::default(),
            motor: Vec::new(),
            limit_switch: LimitSwitchParams::default(),
            temperature: TemperatureParams::default(),
            heater: HeaterParams::default(),
            fan: Vec::new(),
            probe: ProbeParams::default(),
            pinout: PinoutInfo::default(),
            gpio: GpioConfig::default(),
            temperature_presets: vec![
                TemperaturePresetConfig::default(),
                TemperaturePresetConfig {
                    name: String::from_str("ABS"),
                    hotend_temp_bits: 0x4370_0000,
                    bed_temp_bits: 0x42c8_0000,
                    chamber_temp_bits: Some(0x4248_0000),
                    fan_speed: 0,
                },
            ],
            temperature_safety: None,
        }
    }
}

} // verus!
