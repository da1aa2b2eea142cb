//! Merging of the hardware, motion and printer configuration files.
//!
//! The hardware file gives per-axis values and driver pins, the motion file global limits and
//! the velocity profile, the printer file communication and printer parameters. Lengths,
//! speeds and accelerations are single-precision values held as their bit patterns.

use vstd::prelude::*;
use vstd::string::*;
use crate::config::printer_config::{
    PrinterJsonConfig, default_presets, default_limit_switch, default_temp_sensor,
    default_heater_pin, default_probe, default_pinout, MotorParams, DriverParams, ExtruderParams, SerialPortConfig,
    CommunicationConfig as DeviceCommunication, PrinterParams, VelocityProfileConfig,
    SixPointConfig, SCurveConfig, GCodeSettings,
};
use crate::common::str_map::str_eq;
use crate::gcode::parser::{str_to_uppercase, unicode_upper};

verus! {

/// The hardware file: communication and motors.
#[derive(Debug, Clone)]
pub struct HardwareConfig {
    pub communication: Option<CommunicationConfig>,
    pub motor: Vec<MotorConfig>,
}

/// Communication section of a file.
#[derive(Debug, Clone)]
pub struct CommunicationConfig {
    pub serial: Option<SerialConfig>,
}

/// Serial link settings of a file.
#[derive(Debug, Clone)]
pub struct SerialConfig {
    pub port: String,
    pub baud_rate: u32,
    pub data_bits: u8,
    pub parity: String,
    pub stop_bits: u8,
    pub timeout_ms: u64,
    pub flow_control: bool,
}

/// One motor of the hardware file.
#[derive(Debug, Clone)]
pub struct MotorConfig {
    pub axis: String,
    pub step_pin: String,
    pub dir_pin: String,
    pub enable_pin: String,
    pub steps_per_mm_bits: u32,
    /// Per-axis speed limit.
    pub max_speed_mm_per_s_bits: u32,
    /// Per-axis acceleration limit.
    pub max_accel_bits: u32,
    pub position_min_bits: u32,
    pub position_max_bits: u32,
    pub driver: Option<DriverConfig>,
    pub extruder: Option<ExtruderConfig>,
}

/// Stepper driver of a motor in the hardware file.
#[derive(Debug, Clone)]
pub struct DriverConfig {
    pub uart_pin: String,
    pub microsteps: u16,
    pub current_ma: u16,
    pub hold_current_ma: u16,
    pub stealthchop_threshold: u32,
}

/// Extruder of a motor in the hardware file.
#[derive(Debug, Clone, Copy)]
pub struct ExtruderConfig {
    pub nozzle_diameter_mm_bits: u32,
    pub filament_diameter_mm_bits: u32,
    pub max_flow_rate_bits: u32,
}

/// Global kinematic limits.
#[derive(Debug, Clone, Copy, PartialEq, Eq, Structural)]
pub struct KinematicsSection {
    pub max_velocity_bits: u32,
    pub max_acceleration_bits: u32,
    pub max_feed_rate_bits: u32,
    pub jerk_bits: u32,
}

impl Default for KinematicsSection {
    fn default() -> (r: Self)
        ensures
            r == (KinematicsSection {
                max_velocity_bits: 0,
                max_acceleration_bits: 0,
                max_feed_rate_bits: 0,
                jerk_bits: 0,
            }),
    {
        KinematicsSection { max_velocity_bits: 0, max_acceleration_bits: 0, max_feed_rate_bits: 0, jerk_bits: 0 }
    }
}

/// Cornering limits.
#[derive(Debug, Clone, Copy, PartialEq, Eq, Structural)]
pub struct JunctionSection {
    pub square_corner_velocity_bits: u32,
    pub junction_deviation_bits: u32,
}

impl Default for JunctionSection {
    fn default() -> (r: Self)
        ensures
            r == (JunctionSection { square_corner_velocity_bits: 0, junction_deviation_bits: 0 }),
    {
        JunctionSection { square_corner_velocity_bits: 0, junction_deviation_bits: 0 }
    }
}

/// Segmentation of moves.
#[derive(Debug, Clone, Copy, PartialEq, Eq, Structural)]
pub struct SegmentSection {
    pub segment_time_ms: u16,
    pub min_segment_distance_bits: u32,
    pub buffer_ahead_ms: u16,
    pub microstep_accumulation_enabled: bool,
}

impl Default for SegmentSection {
    /// All zero and accumulation off (a missing section; a present section without the flag
    /// turns it on when the file is parsed).
    fn default() -> (r: Self)
        ensures
            r == (SegmentSection {
                segment_time_ms: 0,
                min_segment_distance_bits: 0,
                buffer_ahead_ms: 0,
                microstep_accumulation_enabled: false,
            }),
    {
        SegmentSection {
            segment_time_ms: 0,
            min_segment_distance_bits: 0,
            buffer_ahead_ms: 0,
            microstep_accumulation_enabled: false,
        }
    }
}

/// Homing direction per axis (the sign of the move).
#[derive(Debug, Clone, Copy, PartialEq, Eq, Structural)]
pub struct HomingDirection {
    pub x: i8,
    pub y: i8,
    pub z: i8,
}

impl Default for HomingDirection {
    fn default() -> (r: Self)
        ensures
            r == (HomingDirection { x: 0, y: 0, z: 0 }),
    {
        HomingDirection { x: 0, y: 0, z: 0 }
    }
}

/// Homing speeds and direction.
#[derive(Debug, Clone, Copy, PartialEq, Eq, Structural)]
pub struct HomingSection {
    pub speed_bits: u32,
    pub retract_speed_bits: u32,
    pub backoff_bits: u32,
    pub direction: HomingDirection,
}

impl Default for HomingSection {
    fn default() -> (r: Self)
        ensures
            r == (HomingSection {
                speed_bits: 0,
                retract_speed_bits: 0,
                backoff_bits: 0,
                direction: HomingDirection { x: 0, y: 0, z: 0 },
            }),
    {
        HomingSection { speed_bits: 0, retract_speed_bits: 0, backoff_bits: 0, direction: HomingDirection::default() }
    }
}

/// Arc segmentation.
#[derive(Debug, Clone, Copy, PartialEq, Eq, Structural)]
pub struct ArcSection {
    pub sag_tolerance_bits: u32,
    pub centripetal_accel_bits: u32,
    pub min_segments: u32,
}

impl Default for ArcSection {
    fn default() -> (r: Self)
        ensures
            r == (ArcSection { sag_tolerance_bits: 0, centripetal_accel_bits: 0, min_segments: 0 }),
    {
        ArcSection { sag_tolerance_bits: 0, centripetal_accel_bits: 0, min_segments: 0 }
    }
}

/// Pressure advance.
#[derive(Debug, Clone, Copy, PartialEq, Eq, Structural)]
pub struct ExtruderMotionSection {
    pub pressure_advance_bits: u32,
    pub pressure_advance_max_accel_bits: u32,
}

impl Default for ExtruderMotionSection {
    fn default() -> (r: Self)
        ensures
            r == (ExtruderMotionSection { pressure_advance_bits: 0, pressure_advance_max_accel_bits: 0 }),
    {
        ExtruderMotionSection { pressure_advance_bits: 0, pressure_advance_max_accel_bits: 0 }
    }
}

/// The velocity profile of a file: its type name and six-point values where given.
#[derive(Debug, Clone)]
pub struct VelocityProfileFile {
    pub profile_type: String,
    pub six_point: Option<SixPointFile>,
}

impl Default for VelocityProfileFile {
    fn default() -> (r: Self)
        ensures
            r.profile_type@.len() == 0,
            r.six_point is None,
    {
        VelocityProfileFile { profile_type: String::new(), six_point: None }
    }
}

/// Six-point profile values of a file.
#[derive(Debug, Clone, Copy, PartialEq, Eq, Structural)]
pub struct SixPointFile {
    pub start_accel_mm_s2_bits: u32,
    pub max_accel_mm_s2_bits: u32,
    pub final_decel_mm_s2_bits: u32,
    pub max_decel_mm_s2_bits: u32,
    pub start_speed_mm_s_bits: u32,
    pub stop_speed_mm_s_bits: u32,
    pub break_speed_mm_s_bits: u32,
    pub min_distance_mm_bits: u32,
}

/// The motion file.
#[derive(Debug, Clone)]
pub struct MotionFileConfig {
    pub kinematics: KinematicsSection,
    pub junction: JunctionSection,
    pub segment: SegmentSection,
    pub homing: HomingSection,
    pub arc: ArcSection,
    pub extruder: ExtruderMotionSection,
    pub velocity_profile: VelocityProfileFile,
}

/// Printer parameters of the printer file.
#[derive(Debug, Clone)]
pub struct PrinterParamsSection {
    pub max_velocity_bits: u32,
    pub max_acceleration_bits: u32,
    pub square_corner_velocity_bits: u32,
    pub junction_deviation_bits: u32,
    pub velocity_profile: Option<VelocityProfileFile>,
}

/// The printer file; `gcode_settings` is `None` where the section is missing or is not a
/// settings object.
#[derive(Debug, Clone)]
pub struct PrinterFileConfig {
    pub version: String,
    pub printer_model: String,
    pub communication: Option<CommunicationConfig>,
    pub printer: Option<PrinterParamsSection>,
    pub gcode_settings: Option<GCodeSettings>,
}

/// The three configuration files.
#[derive(Debug, Clone)]
pub struct LoadedConfigs {
    pub hardware: HardwareConfig,
    pub motion: MotionFileConfig,
    pub printer: PrinterFileConfig,
}

// ── per-axis selection ───────────────────────────────────────

/// Whether motor `m` drives the axis `name` (its axis name upper-cased).
pub open spec fn drives(m: MotorConfig, name: Seq<char>) -> bool {
    unicode_upper(m.axis@) == name
}

/// The last motor that drives axis `name`: later entries of the file replace earlier ones.
pub open spec fn axis_motor(motors: Seq<MotorConfig>, name: Seq<char>) -> Option<int> {
    if exists|i: int| 0 <= i < motors.len() && drives(#[trigger] motors[i], name) {
        Some(choose|i: int| 0 <= i < motors.len() && drives(motors[i], name)
            && forall|k: int| i < k < motors.len() ==> !drives(#[trigger] motors[k], name))
    } else {
        None
    }
}

/// The index of the last motor that drives axis `name`.
pub fn find_axis(motors: &Vec<MotorConfig>, name: &str) -> (r: Option<usize>)
    ensures
        match r {
            Some(i) => i < motors@.len() && drives(motors@[i as int], name@)
                && forall|k: int| i < k < motors@.len() ==> !drives(#[trigger] motors@[k], name@),
            None => forall|k: int| 0 <= k < motors@.len() ==> !drives(#[trigger] motors@[k], name@),
        },
        r matches Some(i) ==> axis_motor(motors@, name@) == Some(i as int),
        r is None ==> axis_motor(motors@, name@) is None,
{
    let mut i: usize = motors.len();
    while i > 0
        invariant
            i <= motors@.len(),
            forall|k: int| i <= k < motors@.len() ==> !drives(#[trigger] motors@[k], name@),
        decreases i,
    {
        let upper = str_to_uppercase(motors[i - 1].axis.as_str());
        if str_eq(upper.as_str(), name) {
            let found: usize = i - 1;
            proof {
                let w = choose|j: int| 0 <= j < motors@.len() && drives(motors@[j], name@)
                    && forall|k: int| j < k < motors@.len() ==> !drives(#[trigger] motors@[k], name@);
                assert(drives(motors@[found as int], name@));
                if w != found as int {
                    if w < found as int {
                        assert(!drives(motors@[found as int], name@));
                    } else {
                        assert(!drives(motors@[w], name@));
                    }
                }
            }
            return Some(found);
        }
        i = i - 1;
    }
    None
}

/// Steps per mm, speed limit and acceleration limit of one axis.
#[derive(Debug, Clone, Copy, PartialEq, Eq, Structural)]
pub struct AxisMotion {
    pub steps_per_mm_bits: u32,
    pub max_speed_bits: u32,
    pub max_accel_bits: u32,
}

/// The per-axis values of the motion configuration.
#[derive(Debug, Clone, Copy, PartialEq, Eq, Structural)]
pub struct MotionAxes {
    pub x: AxisMotion,
    pub y: AxisMotion,
    pub z: AxisMotion,
    pub e: AxisMotion,
}

/// 80.0, the X and Y steps per mm where the hardware file has no such motor.
pub const DEFAULT_XY_STEPS_BITS: u32 = 0x42a0_0000;
/// 400.0, the Z steps per mm where the hardware file has no Z motor.
pub const DEFAULT_Z_STEPS_BITS: u32 = 0x43c8_0000;
/// 93.0, the extruder steps per mm where the hardware file has no extruder motor.
pub const DEFAULT_E_STEPS_BITS: u32 = 0x42ba_0000;
/// 50.0, the extruder speed limit where the hardware file has no extruder motor.
pub const DEFAULT_E_SPEED_BITS: u32 = 0x4248_0000;
/// 500.0, the Z acceleration limit where the hardware file has no Z motor.
pub const DEFAULT_Z_ACCEL_BITS: u32 = 0x43fa_0000;
/// 5000.0, the extruder acceleration limit where the hardware file has no extruder motor.
pub const DEFAULT_E_ACCEL_BITS: u32 = 0x459c_4000;

/// The values of motor `m`, or the defaults where there is none.
pub open spec fn axis_motion(m: Option<MotorConfig>, steps: u32, speed: u32, accel: u32) -> AxisMotion {
    match m {
        Some(m) => AxisMotion {
            steps_per_mm_bits: m.steps_per_mm_bits,
            max_speed_bits: m.max_speed_mm_per_s_bits,
            max_accel_bits: m.max_accel_bits,
        },
        None => AxisMotion { steps_per_mm_bits: steps, max_speed_bits: speed, max_accel_bits: accel },
    }
}

/// The motor of axis `name`, where there is one.
pub open spec fn motor_of(motors: Seq<MotorConfig>, name: Seq<char>) -> Option<MotorConfig> {
    match axis_motor(motors, name) {
        Some(i) => Some(motors[i]),
        None => None,
    }
}

/// The extruder motor: axis "E0", else axis "E".
pub open spec fn extruder_motor(motors: Seq<MotorConfig>) -> Option<MotorConfig> {
    match motor_of(motors, "E0"@) {
        Some(m) => Some(m),
        None => motor_of(motors, "E"@),
    }
}

/// Per-axis values: from the hardware motors, with the motion file's global limits or fixed
/// values where an axis has no motor.
pub open spec fn motion_axes(c: LoadedConfigs) -> MotionAxes {
    let motors = c.hardware.motor@;
    let k = c.motion.kinematics;
    MotionAxes {
        x: axis_motion(motor_of(motors, "X"@), DEFAULT_XY_STEPS_BITS, k.max_velocity_bits, k.max_acceleration_bits),
        y: axis_motion(motor_of(motors, "Y"@), DEFAULT_XY_STEPS_BITS, k.max_velocity_bits, k.max_acceleration_bits),
        z: axis_motion(motor_of(motors, "Z"@), DEFAULT_Z_STEPS_BITS, k.max_velocity_bits, DEFAULT_Z_ACCEL_BITS),
        e: axis_motion(extruder_motor(motors), DEFAULT_E_STEPS_BITS, DEFAULT_E_SPEED_BITS, DEFAULT_E_ACCEL_BITS),
    }
}

fn axis_values(motors: &Vec<MotorConfig>, idx: Option<usize>, steps: u32, speed: u32, accel: u32) -> (r: AxisMotion)
    requires
        idx matches Some(i) ==> i < motors@.len(),
    ensures
        r == axis_motion(
            match idx {
                Some(i) => Some(motors@[i as int]),
                None => None,
            },
            steps,
            speed,
            accel,
        ),
{
    match idx {
        Some(i) => AxisMotion {
            steps_per_mm_bits: motors[i].steps_per_mm_bits,
            max_speed_bits: motors[i].max_speed_mm_per_s_bits,
            max_accel_bits: motors[i].max_accel_bits,
        },
        None => AxisMotion { steps_per_mm_bits: steps, max_speed_bits: speed, max_accel_bits: accel },
    }
}

/// The per-axis values of the merged motion configuration.
pub fn select_motion_axes(configs: &LoadedConfigs) -> (r: MotionAxes)
    ensures
        r == motion_axes(*configs),
{
    let motors = &configs.hardware.motor;
    let k = configs.motion.kinematics;
    let xi = find_axis(motors, "X");
    let yi = find_axis(motors, "Y");
    let zi = find_axis(motors, "Z");
    let e0 = find_axis(motors, "E0");
    let ei = match e0 {
        Some(i) => Some(i),
        None => find_axis(motors, "E"),
    };
    MotionAxes {
        x: axis_values(motors, xi, DEFAULT_XY_STEPS_BITS, k.max_velocity_bits, k.max_acceleration_bits),
        y: axis_values(motors, yi, DEFAULT_XY_STEPS_BITS, k.max_velocity_bits, k.max_acceleration_bits),
        z: axis_values(motors, zi, DEFAULT_Z_STEPS_BITS, k.max_velocity_bits, DEFAULT_Z_ACCEL_BITS),
        e: axis_values(motors, ei, DEFAULT_E_STEPS_BITS, DEFAULT_E_SPEED_BITS, DEFAULT_E_ACCEL_BITS),
    }
}

// ── device configuration ─────────────────────────────────────

/// The integer limits of one motor as the device takes them: the hardware file's values
/// converted with Rust's saturating float-to-integer casts.
#[derive(Debug, Clone, Copy, PartialEq, Eq, Structural)]
pub struct MotorLimits {
    pub max_speed_mm_per_s: u16,
    pub max_accel: u32,
    pub steps_per_mm: u32,
    pub position_min: i32,
    pub position_max: i32,
}

/// `p` is motor `m` with the integer limits `lim`.
pub open spec fn device_motor(p: MotorParams, m: MotorConfig, lim: MotorLimits) -> bool {
    &&& p.axis@ == m.axis@
    &&& p.step_pin@ == m.step_pin@
    &&& p.dir_pin@ == m.dir_pin@
    &&& p.enable_pin@ == m.enable_pin@
    &&& p.max_speed_mm_per_s == lim.max_speed_mm_per_s
    &&& p.max_accel == lim.max_accel
    &&& p.steps_per_mm == lim.steps_per_mm
    &&& p.position_min == lim.position_min
    &&& p.position_max == lim.position_max
    &&& match m.driver {
        Some(d) => p.driver.uart_pin@ == d.uart_pin@ && p.driver.microsteps == d.microsteps as u8
            && p.driver.current_ma == d.current_ma && p.driver.hold_current_ma == d.hold_current_ma
            && p.driver.stealthchop_threshold == d.stealthchop_threshold,
        None => p.driver.uart_pin@.len() == 0 && p.driver.microsteps == 16 && p.driver.current_ma == 800
            && p.driver.hold_current_ma == 500 && p.driver.stealthchop_threshold == 999999,
    }
    &&& p.extruder == match m.extruder {
        Some(e) => ExtruderParams {
            nozzle_diameter_mm_bits: Some(e.nozzle_diameter_mm_bits),
            filament_diameter_mm_bits: Some(e.filament_diameter_mm_bits),
            max_flow_rate_bits: Some(e.max_flow_rate_bits),
        },
        None => ExtruderParams {
            nozzle_diameter_mm_bits: None,
            filament_diameter_mm_bits: None,
            max_flow_rate_bits: None,
        },
    }
}

/// Motor `m` as device parameters, with the integer limits `lim` (the microstep count is
/// truncated to a byte).
pub fn device_motor_params(m: &MotorConfig, lim: MotorLimits) -> (r: MotorParams)
    ensures
        device_motor(r, *m, lim),
{
    let driver = match &m.driver {
        Some(d) => DriverParams {
            uart_pin: d.uart_pin.clone(),
            microsteps: d.microsteps as u8,
            current_ma: d.current_ma,
            hold_current_ma: d.hold_current_ma,
            stealthchop_threshold: d.stealthchop_threshold,
        },
        None => DriverParams::default(),
    };
    let extruder = match &m.extruder {
        Some(e) => ExtruderParams {
            nozzle_diameter_mm_bits: Some(e.nozzle_diameter_mm_bits),
            filament_diameter_mm_bits: Some(e.filament_diameter_mm_bits),
            max_flow_rate_bits: Some(e.max_flow_rate_bits),
        },
        None => ExtruderParams::default(),
    };
    MotorParams {
        axis: m.axis.clone(),
        step_pin: m.step_pin.clone(),
        dir_pin: m.dir_pin.clone(),
        enable_pin: m.enable_pin.clone(),
        max_speed_mm_per_s: lim.max_speed_mm_per_s,
        max_accel: lim.max_accel,
        steps_per_mm: lim.steps_per_mm,
        position_min: lim.position_min,
        position_max: lim.position_max,
        driver,
        extruder,
    }
}

/// The communication section that applies: the printer file's, else the hardware file's.
pub open spec fn chosen_communication(c: LoadedConfigs) -> Option<CommunicationConfig> {
    match c.printer.communication {
        Some(x) => Some(x),
        None => c.hardware.communication,
    }
}

/// `s` is the serial link `f` of a file, or the default link where there is none.
pub open spec fn device_serial(s: SerialPortConfig, f: Option<SerialConfig>) -> bool {
    match f {
        Some(f) => s.port@ == f.port@ && s.baud_rate == f.baud_rate && s.data_bits == f.data_bits
            && s.parity@ == f.parity@ && s.stop_bits == f.stop_bits && s.timeout_ms == f.timeout_ms as u32
            && s.flow_control == f.flow_control,
        None => s.port@ == "COM3"@ && s.baud_rate == 57600 && s.data_bits == 8 && s.parity@ == "None"@
            && s.stop_bits == 1 && s.timeout_ms == 1000 && !s.flow_control,
    }
}

fn device_serial_params(f: &Option<SerialConfig>) -> (r: SerialPortConfig)
    ensures
        device_serial(r, *f),
{
    match f {
        Some(s) => SerialPortConfig {
            port: s.port.clone(),
            baud_rate: s.baud_rate,
            data_bits: s.data_bits,
            parity: s.parity.clone(),
            stop_bits: s.stop_bits,
            timeout_ms: s.timeout_ms as u32,
            flow_control: s.flow_control,
        },
        None => SerialPortConfig::default(),
    }
}

/// The six-point values of a file as device configuration.
pub open spec fn six_point_of(sp: SixPointFile) -> SixPointConfig {
    SixPointConfig {
        start_accel_mm_s2_bits: sp.start_accel_mm_s2_bits,
        max_accel_mm_s2_bits: sp.max_accel_mm_s2_bits,
        final_decel_mm_s2_bits: sp.final_decel_mm_s2_bits,
        max_decel_mm_s2_bits: sp.max_decel_mm_s2_bits,
        start_speed_mm_s_bits: sp.start_speed_mm_s_bits,
        stop_speed_mm_s_bits: sp.stop_speed_mm_s_bits,
        break_speed_mm_s_bits: sp.break_speed_mm_s_bits,
        min_distance_mm_bits: sp.min_distance_mm_bits,
    }
}

fn six_point_config(sp: &SixPointFile) -> (r: SixPointConfig)
    ensures
        r == six_point_of(*sp),
{
    SixPointConfig {
        start_accel_mm_s2_bits: sp.start_accel_mm_s2_bits,
        max_accel_mm_s2_bits: sp.max_accel_mm_s2_bits,
        final_decel_mm_s2_bits: sp.final_decel_mm_s2_bits,
        max_decel_mm_s2_bits: sp.max_decel_mm_s2_bits,
        start_speed_mm_s_bits: sp.start_speed_mm_s_bits,
        stop_speed_mm_s_bits: sp.stop_speed_mm_s_bits,
        break_speed_mm_s_bits: sp.break_speed_mm_s_bits,
        min_distance_mm_bits: sp.min_distance_mm_bits,
    }
}

/// Which velocity profile a configuration selects.
pub enum ProfileChoice {
    Trapezoidal,
    DefaultSCurve,
    SixPoint(SixPointConfig),
}

/// The profile a file's profile section names: "six_point" or "SixPoint" with six-point
/// values, "s_curve" or "SCurve" (default S-curve settings), anything else trapezoidal; a
/// six-point name without values is trapezoidal too.
pub open spec fn named_profile(vp: VelocityProfileFile) -> ProfileChoice {
    let t = vp.profile_type@;
    if t == "six_point"@ || t == "SixPoint"@ {
        match vp.six_point {
            Some(sp) => ProfileChoice::SixPoint(six_point_of(sp)),
            None => ProfileChoice::Trapezoidal,
        }
    } else if t == "s_curve"@ || t == "SCurve"@ {
        ProfileChoice::DefaultSCurve
    } else {
        ProfileChoice::Trapezoidal
    }
}

/// `v` is the profile `c`.
pub open spec fn profile_is(v: VelocityProfileConfig, c: ProfileChoice) -> bool {
    match c {
        ProfileChoice::Trapezoidal => v is Trapezoidal,
        ProfileChoice::DefaultSCurve => v matches VelocityProfileConfig::SCurve { s_curve } && !s_curve.enabled
            && s_curve.max_jerk_mm_s3_bits == crate::config::printer_config::DEFAULT_JERK_BITS
            && s_curve.min_distance_mm_bits == crate::config::printer_config::MIN_DISTANCE_BITS
            && s_curve.axis_specific is None,
        ProfileChoice::SixPoint(sp) => v matches VelocityProfileConfig::SixPoint { six_point } && six_point == sp,
    }
}

/// The profile of the printer parameters: the printer file's own profile section, else the
/// motion file's where that has six-point values; trapezoidal where neither applies.
pub open spec fn printer_profile(c: LoadedConfigs, p: PrinterParamsSection) -> ProfileChoice {
    match p.velocity_profile {
        Some(vp) => named_profile(vp),
        None => match c.motion.velocity_profile.six_point {
            Some(_) => named_profile(c.motion.velocity_profile),
            None => ProfileChoice::Trapezoidal,
        },
    }
}

fn profile_config(vp: &VelocityProfileFile) -> (r: VelocityProfileConfig)
    ensures
        profile_is(r, named_profile(*vp)),
{
    let t = vp.profile_type.as_str();
    if str_eq(t, "six_point") || str_eq(t, "SixPoint") {
        match &vp.six_point {
            Some(sp) => VelocityProfileConfig::SixPoint { six_point: six_point_config(sp) },
            None => VelocityProfileConfig::Trapezoidal,
        }
    } else if str_eq(t, "s_curve") || str_eq(t, "SCurve") {
        VelocityProfileConfig::SCurve { s_curve: SCurveConfig::default() }
    } else {
        VelocityProfileConfig::Trapezoidal
    }
}

/// `p` is the printer parameters of the merged configuration: the printer file's section
/// with its profile, else the motion file's limits with its six-point profile (trapezoidal
/// where it has none).
pub open spec fn device_printer(p: PrinterParams, c: LoadedConfigs) -> bool {
    match c.printer.printer {
        Some(s) => p.max_velocity_bits == s.max_velocity_bits && p.max_acceleration_bits
            == s.max_acceleration_bits && p.square_corner_velocity_bits == s.square_corner_velocity_bits
            && p.junction_deviation_bits == s.junction_deviation_bits && profile_is(
            p.velocity_profile,
            printer_profile(c, s),
        ),
        None => p.max_velocity_bits == c.motion.kinematics.max_velocity_bits && p.max_acceleration_bits
            == c.motion.kinematics.max_acceleration_bits && p.square_corner_velocity_bits
            == c.motion.junction.square_corner_velocity_bits && p.junction_deviation_bits
            == c.motion.junction.junction_deviation_bits && profile_is(
            p.velocity_profile,
            match c.motion.velocity_profile.six_point {
                Some(sp) => ProfileChoice::SixPoint(six_point_of(sp)),
                None => ProfileChoice::Trapezoidal,
            },
        ),
    }
}

fn device_printer_params(configs: &LoadedConfigs) -> (r: PrinterParams)
    ensures
        device_printer(r, *configs),
{
    match &configs.printer.printer {
        Some(p) => {
            let velocity_profile = match &p.velocity_profile {
                Some(vp) => profile_config(vp),
                None => match &configs.motion.velocity_profile.six_point {
                    Some(_) => profile_config(&configs.motion.velocity_profile),
                    None => VelocityProfileConfig::Trapezoidal,
                },
            };
            PrinterParams {
                max_velocity_bits: p.max_velocity_bits,
                max_acceleration_bits: p.max_acceleration_bits,
                square_corner_velocity_bits: p.square_corner_velocity_bits,
                junction_deviation_bits: p.junction_deviation_bits,
                velocity_profile,
            }
        },
        None => PrinterParams {
            max_velocity_bits: configs.motion.kinematics.max_velocity_bits,
            max_acceleration_bits: configs.motion.kinematics.max_acceleration_bits,
            square_corner_velocity_bits: configs.motion.junction.square_corner_velocity_bits,
            junction_deviation_bits: configs.motion.junction.junction_deviation_bits,
            velocity_profile: match &configs.motion.velocity_profile.six_point {
                Some(sp) => VelocityProfileConfig::SixPoint { six_point: six_point_config(sp) },
                None => VelocityProfileConfig::Trapezoidal,
            },
        },
    }
}

/// `r` is the device configuration of the merged files, `limits[i]` being the integer limits
/// of hardware motor `i`.
pub open spec fn merged_config(r: PrinterJsonConfig, configs: LoadedConfigs, limits: Seq<MotorLimits>) -> bool {
    &&& r.version@ == configs.printer.version@
    &&& r.printer_model@ == configs.printer.printer_model@
    &&& r.motor@.len() == configs.hardware.motor@.len()
    &&& forall|i: int| 0 <= i < r.motor@.len() ==> device_motor(#[trigger] r.motor@[i], configs.hardware.motor@[i], limits[i])
    &&& device_serial(r.communication.serial, match chosen_communication(configs) {
        Some(c) => c.serial,
        None => None,
    })
    &&& r.communication.status_report_interval_ms == 0
    &&& device_printer(r.printer, configs)
    &&& r.gcode_settings.motion_batch_size == (match configs.printer.gcode_settings {
        Some(g) => g.motion_batch_size,
        None => 4,
    })
    &&& default_limit_switch(r.limit_switch)
    &&& default_temp_sensor(r.temperature.hotbed)
    &&& default_temp_sensor(r.temperature.hotend)
    &&& default_heater_pin(r.heater.hotbed)
    &&& default_heater_pin(r.heater.hotend)
    &&& default_probe(r.probe)
    &&& default_pinout(r.pinout)
    &&& r.fan@.len() == 0
    &&& r.gpio.output@.len() == 0
    &&& r.gpio.input@.len() == 0
    &&& default_presets(r.temperature_presets@)
    &&& r.temperature_safety is None
}

/// The device configuration of the merged files. `limits[i]` are the integer limits of
/// hardware motor `i`. Version and model come from the printer file; motors from the hardware
/// file, in order; the serial link from the communication section that applies (the default
/// link where it has none); printer parameters as `device_printer` says; G-code settings from
/// the printer file or their defaults; every other section at its default.
pub fn build_printer_config(configs: &LoadedConfigs, limits: &Vec<MotorLimits>) -> (r: PrinterJsonConfig)
    requires
        limits@.len() == configs.hardware.motor@.len(),
    ensures
        merged_config(r, *configs, limits@),
{
    let mut motors: Vec<MotorParams> = Vec::new();
    let mut i: usize = 0;
    while i < configs.hardware.motor.len()
        invariant
            i <= configs.hardware.motor@.len(),
            limits@.len() == configs.hardware.motor@.len(),
            motors@.len() == i,
            forall|k: int| 0 <= k < i ==> device_motor(#[trigger] motors@[k], configs.hardware.motor@[k], limits@[k]),
        decreases configs.hardware.motor@.len() - i,
    {
        motors.push(device_motor_params(&configs.hardware.motor[i], limits[i]));
        i = i + 1;
    }
    let comm = match &configs.printer.communication {
        Some(c) => Some(c),
        None => match &configs.hardware.communication {
            Some(c) => Some(c),
            None => None,
        },
    };
    let serial = match comm {
        Some(c) => device_serial_params(&c.serial),
        None => device_serial_params(&None),
    };
    let gcode_settings = match &configs.printer.gcode_settings {
        Some(g) => GCodeSettings { motion_batch_size: g.motion_batch_size },
        None => GCodeSettings::default(),
    };
    let mut cfg = PrinterJsonConfig::default();
    cfg.version = configs.printer.version.clone();
    cfg.printer_model = configs.printer.printer_model.clone();
    cfg.communication = DeviceCommunication { serial, status_report_interval_ms: 0 };
    cfg.printer = device_printer_params(configs);
    cfg.gcode_settings = gcode_settings;
    cfg.motor = motors;
    cfg
}

/// The motor of axis `name` is the last motor whose axis name, upper-cased, is `name`:
/// whichever such motor `i` is given, `axis_motor` finds it.
proof fn lemma_axis_motor_is_last(motors: Seq<MotorConfig>, name: Seq<char>, i: int)
    requires
        0 <= i < motors.len(),
        unicode_upper(motors[i].axis@) == name,
        forall|k: int| i < k < motors.len() ==> unicode_upper((#[trigger] motors[k]).axis@) != name,
    ensures
        axis_motor(motors, name) == Some(i),
{
    assert(drives(motors[i], name));
    let j = choose|j: int| 0 <= j < motors.len() && drives(motors[j], name)
        && forall|k: int| j < k < motors.len() ==> !drives(#[trigger] motors[k], name);
    if j < i {
        assert(!drives(motors[i], name));
    } else if j > i {
        assert(unicode_upper(motors[j].axis@) != name);
    }
}

/// Each linear axis takes its steps per millimetre, top speed and acceleration from the
/// motor that drives it: where motor `i` is the last motor whose axis name, upper-cased, is
/// `X` (or `Y`, or `Z`), the merged values of that axis are motor `i`'s.
pub proof fn lemma_axis_values_from_own_motor(c: LoadedConfigs, i: int)
    requires
        0 <= i < c.hardware.motor@.len(),
    ensures
        ({
            let m = c.hardware.motor@[i];
            let later_not = |name: Seq<char>| forall|k: int| i < k < c.hardware.motor@.len()
                ==> unicode_upper((#[trigger] c.hardware.motor@[k]).axis@) != name;
            &&& unicode_upper(m.axis@) == "X"@ && later_not("X"@) ==> motion_axes(c).x == (AxisMotion {
                steps_per_mm_bits: m.steps_per_mm_bits,
                max_speed_bits: m.max_speed_mm_per_s_bits,
                max_accel_bits: m.max_accel_bits,
            })
            &&& unicode_upper(m.axis@) == "Y"@ && later_not("Y"@) ==> motion_axes(c).y == (AxisMotion {
                steps_per_mm_bits: m.steps_per_mm_bits,
                max_speed_bits: m.max_speed_mm_per_s_bits,
                max_accel_bits: m.max_accel_bits,
            })
            &&& unicode_upper(m.axis@) == "Z"@ && later_not("Z"@) ==> motion_axes(c).z == (AxisMotion {
                steps_per_mm_bits: m.steps_per_mm_bits,
                max_speed_bits: m.max_speed_mm_per_s_bits,
                max_accel_bits: m.max_accel_bits,
            })
        }),
{
    let motors = c.hardware.motor@;
    let m = motors[i];
    if unicode_upper(m.axis@) == "X"@ && (forall|k: int| i < k < motors.len() ==> unicode_upper((#[trigger] motors[k]).axis@) != "X"@) {
        lemma_axis_motor_is_last(motors, "X"@, i);
    }
    if unicode_upper(m.axis@) == "Y"@ && (forall|k: int| i < k < motors.len() ==> unicode_upper((#[trigger] motors[k]).axis@) != "Y"@) {
        lemma_axis_motor_is_last(motors, "Y"@, i);
    }
    if unicode_upper(m.axis@) == "Z"@ && (forall|k: int| i < k < motors.len() ==> unicode_upper((#[trigger] motors[k]).axis@) != "Z"@) {
        lemma_axis_motor_is_last(motors, "Z"@, i);
    }
}

} // verus!
