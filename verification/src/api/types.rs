//! Request and response types of the core server protocol that carry no real numbers, and
//! the machine commands with their numbers held as decimal text.

use vstd::prelude::*;

verus! {

/// How a machine command is executed.
#[derive(Debug, Clone, Copy, PartialEq, Eq, Structural)]
pub enum MExecutionType {
    /// Waits until a condition holds (a temperature is reached).
    SyncWait,
    /// Takes effect at once.
    SyncSet,
    /// Updates the motion parameters.
    MotionParam,
}

/// Machine (M) commands. Their numbers are held as the decimal text they were written
/// with; an absent optional parameter is `None`.
#[derive(Debug, PartialEq)]
pub enum MCommand {
    /// M109: set the hotend temperature and wait.
    WaitHotendTemp { tool: String, temp: String },
    /// M190: set the bed temperature and wait.
    WaitBedTemp { temp: String },
    /// M104: set the hotend temperature.
    SetHotendTemp { tool: String, temp: String },
    /// M140: set the bed temperature.
    SetBedTemp { temp: String },
    /// M106: set a fan's speed (0 to 255).
    SetFanSpeed { index: String, speed: String },
    /// M107: switch a fan off.
    FanOff { index: String },
    /// M82: absolute extrusion.
    ExtruderAbsoluteMode,
    /// M83: relative extrusion.
    ExtruderRelativeMode,
    /// M201: maximum accelerations.
    SetAcceleration { x: Option<String>, y: Option<String>, z: Option<String>, e: Option<String> },
    /// M203: maximum velocities.
    SetMaxVelocity { x: Option<String>, y: Option<String>, z: Option<String>, e: Option<String> },
    /// M204: travel, print and retract accelerations.
    SetAccelParams { travel: Option<String>, print: Option<String>, retract: Option<String> },
    /// M92: steps per millimetre.
    SetStepsPerMm { x: Option<String>, y: Option<String>, z: Option<String>, e: Option<String> },
}

/// The execution type of a machine command: waiting for temperatures, updating motion
/// parameters, or taking effect at once.
pub open spec fn m_execution_type(c: MCommand) -> MExecutionType {
    match c {
        MCommand::WaitHotendTemp { .. } | MCommand::WaitBedTemp { .. } => MExecutionType::SyncWait,
        MCommand::SetAcceleration { .. } | MCommand::SetMaxVelocity { .. }
        | MCommand::SetAccelParams { .. } | MCommand::SetStepsPerMm { .. } => MExecutionType::MotionParam,
        _ => MExecutionType::SyncSet,
    }
}

/// A copy of an optional text.
pub fn clone_opt_text(o: &Option<String>) -> (r: Option<String>)
    ensures
        r == *o,
{
    match o {
        Some(s) => Some(s.clone()),
        None => None,
    }
}

impl Clone for MCommand {
    fn clone(&self) -> (r: Self)
        ensures
            r == *self,
    {
        match self {
            MCommand::WaitHotendTemp { tool, temp } => MCommand::WaitHotendTemp { tool: tool.clone(), temp: temp.clone() },
            MCommand::WaitBedTemp { temp } => MCommand::WaitBedTemp { temp: temp.clone() },
            MCommand::SetHotendTemp { tool, temp } => MCommand::SetHotendTemp { tool: tool.clone(), temp: temp.clone() },
            MCommand::SetBedTemp { temp } => MCommand::SetBedTemp { temp: temp.clone() },
            MCommand::SetFanSpeed { index, speed } => MCommand::SetFanSpeed { index: index.clone(), speed: speed.clone() },
            MCommand::FanOff { index } => MCommand::FanOff { index: index.clone() },
            MCommand::ExtruderAbsoluteMode => MCommand::ExtruderAbsoluteMode,
            MCommand::ExtruderRelativeMode => MCommand::ExtruderRelativeMode,
            MCommand::SetAcceleration { x, y, z, e } => MCommand::SetAcceleration {
                x: clone_opt_text(x),
                y: clone_opt_text(y),
                z: clone_opt_text(z),
                e: clone_opt_text(e),
            },
            MCommand::SetMaxVelocity { x, y, z, e } => MCommand::SetMaxVelocity {
                x: clone_opt_text(x),
                y: clone_opt_text(y),
                z: clone_opt_text(z),
                e: clone_opt_text(e),
            },
            MCommand::SetAccelParams { travel, print, retract } => MCommand::SetAccelParams {
                travel: clone_opt_text(travel),
                print: clone_opt_text(print),
                retract: clone_opt_text(retract),
            },
            MCommand::SetStepsPerMm { x, y, z, e } => MCommand::SetStepsPerMm {
                x: clone_opt_text(x),
                y: clone_opt_text(y),
                z: clone_opt_text(z),
                e: clone_opt_text(e),
            },
        }
    }
}

impl MCommand {
    /// How the command is executed.
    pub fn execution_type(&self) -> (r: MExecutionType)
        ensures
            r == m_execution_type(*self),
    {
        match self {
            MCommand::WaitHotendTemp { .. } | MCommand::WaitBedTemp { .. } => MExecutionType::SyncWait,
            MCommand::SetAcceleration { .. } | MCommand::SetMaxVelocity { .. }
            | MCommand::SetAccelParams { .. } | MCommand::SetStepsPerMm { .. } => MExecutionType::MotionParam,
            _ => MExecutionType::SyncSet,
        }
    }
}

/// Serial port requests.
#[derive(Debug, Clone)]
pub enum SerialRequest {
    Connect { port: String, baud_rate: u32 },
    /// A fully packed frame, sent as it is.
    SendRawBytes { data: Vec<u8> },
    SendFrame { frame_type: u8, payload: Vec<u8> },
    RecvFrame,
    QueryStatus,
    ConfigComplete,
    InitDeviceSeq,
    EnterPrintMode,
    ExitPrintMode,
    SubscribeStatus { enable: bool },
}

/// Configuration requests.
#[derive(Debug, Clone)]
pub enum ConfigRequest {
    LoadPrinterConfig { config_path: String },
    UpdateMotionConfig { motion_config_json: String },
    UpdateFanConfig { fan_config_json: String },
    LoadAllConfigs { config_dir: String },
}

/// A fan: its index in M106/M107 and the GPIO output that drives it.
#[derive(Debug)]
pub struct FanConfigEntry {
    pub index: u8,
    pub name: String,
    pub description: String,
}

/// The fans of the printer.
#[derive(Debug)]
pub struct FanConfig {
    pub fans: Vec<FanConfigEntry>,
}

/// The GPIO name of the first fan with the given index.
pub open spec fn fan_name(fans: Seq<FanConfigEntry>, index: u8) -> Option<Seq<char>>
    decreases fans.len(),
{
    if fans.len() == 0 {
        None
    } else if fans[0].index == index {
        Some(fans[0].name@)
    } else {
        fan_name(fans.drop_first(), index)
    }
}

impl FanConfig {
    /// The GPIO name of the first fan with the given index.
    pub fn get_name(&self, index: u8) -> (r: Option<&str>)
        ensures
            match r {
                Some(n) => fan_name(self.fans@, index) == Some(n@),
                None => fan_name(self.fans@, index) is None,
            },
    {
        let mut i: usize = 0;
        proof {
            assert(self.fans@.subrange(0, self.fans@.len() as int) =~= self.fans@);
        }
        while i < self.fans.len()
            invariant
                i <= self.fans@.len(),
                fan_name(self.fans@, index) == fan_name(self.fans@.subrange(i as int, self.fans@.len() as int), index),
            decreases self.fans@.len() - i,
        {
            let ghost s = self.fans@.subrange(i as int, self.fans@.len() as int);
            assert(s[0] == self.fans@[i as int]);
            if self.fans[i].index == index {
                return Some(self.fans[i].name.as_str());
            }
            assert(s.drop_first() =~= self.fans@.subrange(i + 1, self.fans@.len() as int));
            i = i + 1;
        }
        None
    }
}

impl Default for FanConfig {
    fn default() -> (r: Self)
        ensures
            r.fans@.len() == 0,
    {
        FanConfig { fans: Vec::new() }
    }
}

/// Serial port responses.
#[derive(Debug, Clone)]
pub enum SerialResponse {
    ConnectResult { success: bool, error: Option<String> },
    FrameSendResult { success: bool, error: Option<String> },
    FrameReceived { frame_type: u8, payload: Vec<u8> },
    NoFrame,
    SerialStatusInfo { connected: bool, port: Option<String> },
    ConfigResult { success: bool, error: Option<String> },
    AckReceived,
    NackReceived { error_code: u8 },
    SeqInitResult,
    SubscribeStatusResult { success: bool, error: Option<String> },
    /// A status report pushed by the server.
    StatusReport { frame_type: u8, payload: Vec<u8> },
}

/// Serial communication statistics.
#[derive(Debug, Clone, Copy, PartialEq, Eq, Structural)]
pub struct SerialStats {
    pub bytes_sent: u64,
    pub bytes_received: u64,
    pub frames_sent: u64,
    pub frames_received: u64,
    pub crc_errors: u64,
    pub frames_invalid: u64,
    pub connected_since_ms: Option<u64>,
}

/// Timing statistics of a print.
#[derive(Debug, Clone, Copy, PartialEq, Eq, Structural)]
pub struct TimeStats {
    pub total_print_time_ms: u64,
    pub flow_control_wait_ms: u64,
    pub first_move_ts_ms: Option<u64>,
    pub last_move_ts_ms: Option<u64>,
    pub device_first_step_tick: Option<u32>,
    pub device_last_step_tick: Option<u32>,
    pub device_motion_duration_ms: Option<u64>,
}

/// Configuration responses.
#[derive(Debug, Clone)]
pub enum ConfigResponse {
    ConfigLoaded { success: bool, error: Option<String> },
    MotionConfigUpdated { success: bool, error: Option<String> },
    FanConfigUpdated { success: bool, error: Option<String> },
    AllConfigsLoaded {
        success: bool,
        printer_loaded: bool,
        motion_loaded: bool,
        hardware_loaded: bool,
        error: Option<String>,
    },
}

/// Status responses.
#[derive(Debug, Clone)]
pub enum StatusResponse {
    ServerStatus { version: String, serial_connected: bool, uptime_secs: u64 },
}

/// Error codes of the server.
#[derive(Debug, Clone, Copy, PartialEq, Eq, Structural)]
pub enum ErrorCode {
    InvalidRequest,
    SerialError,
    MotionError,
    ConfigError,
    InternalError,
    NotConnected,
    Timeout,
}

/// An error reported by the server.
#[derive(Debug, Clone)]
pub struct ErrorInfo {
    pub code: ErrorCode,
    pub message: String,
}

} // verus!
