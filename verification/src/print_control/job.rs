//! Print jobs, temperature presets and the print controller.
//!
//! Temperatures, feed rates and the progress percentage are single-precision values held as
//! their bit patterns.

use vstd::prelude::*;
use vstd::string::*;
use crate::common::error::EmbError;
use crate::common::foreign::{new_uuid, uuid_to_string, uuid_text, now_secs, file_name_of, path_file_name};
use crate::common::str_map::str_eq;
use crate::common::text::append_str;
use crate::gcode::basic::GCodeFileParser;
use crate::print_control::state_machine::{PrintState, print_state_name};

verus! {

/// A print job: the file it prints and when it was created, started and completed (seconds
/// since the Unix epoch).
#[derive(Debug)]
pub struct PrintJob {
    pub id: String,
    pub file_name: String,
    pub file_path: String,
    pub name: Option<String>,
    pub material: String,
    pub estimated_time_seconds: u64,
    pub created_at: u64,
    pub started_at: Option<u64>,
    pub completed_at: Option<u64>,
}

/// Option<String> with the same text.
pub open spec fn same_opt_text(a: Option<String>, b: Option<String>) -> bool {
    match (a, b) {
        (Some(x), Some(y)) => x@ == y@,
        (None, None) => true,
        _ => false,
    }
}

/// Two jobs that hold the same values.
pub open spec fn same_job(a: PrintJob, b: PrintJob) -> bool {
    &&& a.id@ == b.id@
    &&& a.file_name@ == b.file_name@
    &&& a.file_path@ == b.file_path@
    &&& same_opt_text(a.name, b.name)
    &&& a.material@ == b.material@
    &&& a.estimated_time_seconds == b.estimated_time_seconds
    &&& a.created_at == b.created_at
    &&& a.started_at == b.started_at
    &&& a.completed_at == b.completed_at
}

impl Clone for PrintJob {
    fn clone(&self) -> (r: Self)
        ensures
            same_job(r, *self),
    {
        PrintJob {
            id: self.id.clone(),
            file_name: self.file_name.clone(),
            file_path: self.file_path.clone(),
            name: match &self.name {
                Some(n) => Some(n.clone()),
                None => None,
            },
            material: self.material.clone(),
            estimated_time_seconds: self.estimated_time_seconds,
            created_at: self.created_at,
            started_at: self.started_at,
            completed_at: self.completed_at,
        }
    }
}

impl PrintJob {
    /// A job with the given identifier, created at `now`: no file, no name, no material, no
    /// estimate, neither started nor completed.
    pub fn new_at(id: String, now: u64) -> (r: Self)
        ensures
            r.id@ == id@,
            r.file_name@.len() == 0,
            r.file_path@.len() == 0,
            r.name is None,
            r.material@.len() == 0,
            r.estimated_time_seconds == 0,
            r.created_at == now,
            r.started_at is None,
            r.completed_at is None,
    {
        PrintJob {
            id,
            file_name: String::new(),
            file_path: String::new(),
            name: None,
            material: String::new(),
            estimated_time_seconds: 0,
            created_at: now,
            started_at: None,
            completed_at: None,
        }
    }

    /// A job with a fresh random identifier, created now.
    pub fn new() -> (r: Self)
        ensures
            r.id@.len() == 36,
            exists|u: uuid::Uuid| r.id@ == uuid_text(u),
            r.file_name@.len() == 0,
            r.file_path@.len() == 0,
            r.name is None,
            r.material@.len() == 0,
            r.estimated_time_seconds == 0,
            r.started_at is None,
            r.completed_at is None,
    {
        let u = new_uuid();
        let id = uuid_to_string(&u);
        PrintJob::new_at(id, now_secs())
    }
}

/// A named pair of temperatures (single-precision bit patterns) and a fan speed.
#[derive(Debug)]
pub struct TemperaturePreset {
    pub name: String,
    pub hotend_temp_bits: u32,
    pub bed_temp_bits: u32,
    pub fan_speed: u8,
}

/// Two presets that hold the same values.
pub open spec fn same_preset(a: TemperaturePreset, b: TemperaturePreset) -> bool {
    &&& a.name@ == b.name@
    &&& a.hotend_temp_bits == b.hotend_temp_bits
    &&& a.bed_temp_bits == b.bed_temp_bits
    &&& a.fan_speed == b.fan_speed
}

impl Clone for TemperaturePreset {
    fn clone(&self) -> (r: Self)
        ensures
            same_preset(r, *self),
    {
        TemperaturePreset {
            name: self.name.clone(),
            hotend_temp_bits: self.hotend_temp_bits,
            bed_temp_bits: self.bed_temp_bits,
            fan_speed: self.fan_speed,
        }
    }
}

/// 200.0 as a single-precision bit pattern.
pub const PLA_HOTEND_BITS: u32 = 0x4348_0000;
/// 60.0 as a single-precision bit pattern.
pub const PLA_BED_BITS: u32 = 0x4270_0000;
/// 240.0 as a single-precision bit pattern.
pub const ABS_HOTEND_BITS: u32 = 0x4370_0000;
/// 100.0 as a single-precision bit pattern.
pub const ABS_BED_BITS: u32 = 0x42c8_0000;

impl Default for TemperaturePreset {
    /// PLA: hotend 200.0, bed 60.0, fan 100.
    fn default() -> (r: Self)
        ensures
            r.name@ == "PLA"@,
            r.hotend_temp_bits == PLA_HOTEND_BITS,
            r.bed_temp_bits == PLA_BED_BITS,
            r.fan_speed == 100,
    {
        TemperaturePreset {
            name: String::from_str("PLA"),
            hotend_temp_bits: PLA_HOTEND_BITS,
            bed_temp_bits: PLA_BED_BITS,
            fan_speed: 100,
        }
    }
}

/// Feed rate and acceleration limits of a job (single-precision bit patterns).
#[derive(Debug, Clone, Copy)]
pub struct MotionConfig {
    pub max_feedrate_x_bits: u32,
    pub max_feedrate_y_bits: u32,
    pub max_feedrate_z_bits: u32,
    pub max_feedrate_e_bits: u32,
    pub acceleration_bits: u32,
    pub retract_acceleration_bits: u32,
    pub travel_acceleration_bits: u32,
}

impl Default for MotionConfig {
    /// X and Y 500.0, Z 12.0, E 25.0, every acceleration 980.0.
    fn default() -> (r: Self)
        ensures
            r.max_feedrate_x_bits == 0x43fa_0000,
            r.max_feedrate_y_bits == 0x43fa_0000,
            r.max_feedrate_z_bits == 0x4140_0000,
            r.max_feedrate_e_bits == 0x41c8_0000,
            r.acceleration_bits == 0x4475_0000,
            r.retract_acceleration_bits == 0x4475_0000,
            r.travel_acceleration_bits == 0x4475_0000,
    {
        MotionConfig {
            max_feedrate_x_bits: 0x43fa_0000,
            max_feedrate_y_bits: 0x43fa_0000,
            max_feedrate_z_bits: 0x4140_0000,
            max_feedrate_e_bits: 0x41c8_0000,
            acceleration_bits: 0x4475_0000,
            retract_acceleration_bits: 0x4475_0000,
            travel_acceleration_bits: 0x4475_0000,
        }
    }
}

/// Temperature limits of a job (single-precision bit patterns) and the watch period.
#[derive(Debug, Clone, Copy)]
pub struct SafetyConfig {
    pub min_temp_hotend_bits: u32,
    pub max_temp_hotend_bits: u32,
    pub min_temp_bed_bits: u32,
    pub max_temp_bed_bits: u32,
    pub min_extrude_temp_bits: u32,
    pub watch_period_ms: u32,
}

impl Default for SafetyConfig {
    /// Hotend 0.0 to 300.0, bed 0.0 to 120.0, extrusion from 170.0, watched every 20 s.
    fn default() -> (r: Self)
        ensures
            r.min_temp_hotend_bits == 0,
            r.max_temp_hotend_bits == 0x4396_0000,
            r.min_temp_bed_bits == 0,
            r.max_temp_bed_bits == 0x42f0_0000,
            r.min_extrude_temp_bits == 0x432a_0000,
            r.watch_period_ms == 20000,
    {
        SafetyConfig {
            min_temp_hotend_bits: 0,
            max_temp_hotend_bits: 0x4396_0000,
            min_temp_bed_bits: 0,
            max_temp_bed_bits: 0x42f0_0000,
            min_extrude_temp_bits: 0x432a_0000,
            watch_period_ms: 20000,
        }
    }
}

/// What happened to a job.
#[derive(Debug, Clone)]
pub enum PrintEvent {
    Started,
    Paused,
    Resumed,
    Completed,
    Failed(String),
    Progress { percent_bits: u32, layer: u32 },
}

/// Progress of the running job; the percentage is a single-precision bit pattern.
#[derive(Debug, Clone, Copy, PartialEq, Eq, Structural)]
pub struct PrintProgress {
    pub percent_bits: u32,
    pub current_layer: u32,
    pub total_layers: u32,
    pub elapsed_seconds: u64,
    pub remaining_seconds: u64,
}

impl Default for PrintProgress {
    /// Nothing done, nothing known.
    fn default() -> (r: Self)
        ensures
            r == (PrintProgress {
                percent_bits: 0,
                current_layer: 0,
                total_layers: 0,
                elapsed_seconds: 0,
                remaining_seconds: 0,
            }),
    {
        PrintProgress {
            percent_bits: 0,
            current_layer: 0,
            total_layers: 0,
            elapsed_seconds: 0,
            remaining_seconds: 0,
        }
    }
}

/// Controls one print job at a time: its state, the loaded file, progress and presets.
pub struct PrintController {
    state: PrintState,
    current_job: Option<PrintJob>,
    gcode_parser: Option<GCodeFileParser>,
    presets: Vec<TemperaturePreset>,
    motion_config: MotionConfig,
    safety_config: SafetyConfig,
    stop_requested: bool,
    progress: PrintProgress,
}

/// `b` is controller `a` after a start at `now`: printing, the loaded job (if any) stamped
/// as started at `now` and otherwise the same, progress back to zero percent, layer 0 and
/// no time elapsed, and parser, presets, settings and stop request unchanged.
pub open spec fn started_at(a: PrintController, b: PrintController, now: u64) -> bool {
    &&& b.state_of() == PrintState::Printing
    &&& b.progress_of() == (PrintProgress {
        percent_bits: 0,
        current_layer: 0,
        elapsed_seconds: 0,
        ..a.progress_of()
    })
    &&& (match a.job() {
        Some(j) => b.job() == Some(PrintJob { started_at: Some(now), ..j }),
        None => b.job() is None,
    })
    &&& b.parser() == a.parser()
    &&& b.stop_flag() == a.stop_flag()
    &&& b.preset_list() == a.preset_list()
    &&& b.motion_of() == a.motion_of()
    &&& b.safety_of() == a.safety_of()
}

/// Everything but the state and the stop request is the same.
pub open spec fn same_but_state(a: &PrintController, b: &PrintController) -> bool {
    &&& a.job() == b.job()
    &&& a.parser() == b.parser()
    &&& a.preset_list() == b.preset_list()
    &&& a.progress_of() == b.progress_of()
    &&& a.motion_of() == b.motion_of()
    &&& a.safety_of() == b.safety_of()
}

impl PrintController {
    pub closed spec fn state_of(&self) -> PrintState {
        self.state
    }

    pub closed spec fn job(&self) -> Option<PrintJob> {
        self.current_job
    }

    pub closed spec fn parser(&self) -> Option<GCodeFileParser> {
        self.gcode_parser
    }

    pub closed spec fn preset_list(&self) -> Seq<TemperaturePreset> {
        self.presets@
    }

    pub closed spec fn stop_flag(&self) -> bool {
        self.stop_requested
    }

    pub closed spec fn progress_of(&self) -> PrintProgress {
        self.progress
    }

    pub closed spec fn motion_of(&self) -> MotionConfig {
        self.motion_config
    }

    pub closed spec fn safety_of(&self) -> SafetyConfig {
        self.safety_config
    }

    /// Idle, no job, no stop requested, no progress, and the presets PLA (200.0 / 60.0, fan
    /// 100) and ABS (240.0 / 100.0, fan 0).
    pub fn new() -> (r: Self)
        ensures
            r.state_of() == PrintState::Idle,
            r.job() is None,
            r.parser() is None,
            !r.stop_flag(),
            r.progress_of() == (PrintProgress {
                percent_bits: 0,
                current_layer: 0,
                total_layers: 0,
                elapsed_seconds: 0,
                remaining_seconds: 0,
            }),
            r.preset_list().len() == 2,
            r.preset_list()[0].name@ == "PLA"@,
            r.preset_list()[0].hotend_temp_bits == PLA_HOTEND_BITS,
            r.preset_list()[0].bed_temp_bits == PLA_BED_BITS,
            r.preset_list()[0].fan_speed == 100,
            r.preset_list()[1].name@ == "ABS"@,
            r.preset_list()[1].hotend_temp_bits == ABS_HOTEND_BITS,
            r.preset_list()[1].bed_temp_bits == ABS_BED_BITS,
            r.preset_list()[1].fan_speed == 0,
    {
        let mut presets: Vec<TemperaturePreset> = Vec::new();
        presets.push(TemperaturePreset::default());
        presets.push(
            TemperaturePreset {
                name: String::from_str("ABS"),
                hotend_temp_bits: ABS_HOTEND_BITS,
                bed_temp_bits: ABS_BED_BITS,
                fan_speed: 0,
            },
        );
        PrintController {
            state: PrintState::Idle,
            current_job: None,
            gcode_parser: None,
            presets,
            motion_config: MotionConfig::default(),
            safety_config: SafetyConfig::default(),
            stop_requested: false,
            progress: PrintProgress::default(),
        }
    }

    /// Loads the file at `file_path` as the job `job`: the job takes the path and its final
    /// component as file name (empty where the path has none), the progress takes the
    /// parser's line count as layer count, and the job is returned.
    pub fn load_file_as(&mut self, file_path: &str, job: PrintJob) -> (r: Result<PrintJob, EmbError>)
        ensures
            r matches Ok(j) && {
                &&& j.id@ == job.id@
                &&& j.file_path@ == file_path@
                &&& j.file_name@ == (match path_file_name(file_path@) {
                    Some(n) => n,
                    None => Seq::<char>::empty(),
                })
                &&& j.created_at == job.created_at
                &&& j.started_at == job.started_at
                &&& j.estimated_time_seconds == job.estimated_time_seconds
                &&& final(self).job() matches Some(c) && same_job(c, j)
            },
            final(self).parser() matches Some(p) && p.path() matches Some(fp) && fp@ == file_path@,
            final(self).progress_of().total_layers == final(self).parser()->0.lines(),
            final(self).progress_of().percent_bits == old(self).progress_of().percent_bits,
            final(self).progress_of().current_layer == old(self).progress_of().current_layer,
            final(self).state_of() == old(self).state_of(),
            final(self).stop_flag() == old(self).stop_flag(),
            final(self).preset_list() == old(self).preset_list(),
    {
        let mut parser = GCodeFileParser::new();
        let loaded = parser.load_file(file_path);
        if let Err(e) = loaded {
            return Err(e);
        }
        let mut job = job;
        job.file_path = String::from_str(file_path);
        job.file_name = match file_name_of(file_path) {
            Some(n) => n,
            None => String::new(),
        };
        self.progress.total_layers = parser.total_lines();
        self.gcode_parser = Some(parser);
        let result = job.clone();
        self.current_job = Some(job);
        Ok(result)
    }

    /// Loads the file at `file_path` as a new job (fresh identifier, created now).
    pub fn load_file(&mut self, file_path: &str) -> (r: Result<PrintJob, EmbError>)
        ensures
            r matches Ok(j) && {
                &&& j.file_path@ == file_path@
                &&& j.started_at is None
                &&& final(self).job() matches Some(c) && same_job(c, j)
            },
            final(self).state_of() == old(self).state_of(),
    {
        let job = PrintJob::new();
        self.load_file_as(file_path, job)
    }

    /// Starts the loaded job at `now`: refused unless idle, and refused where a safety check
    /// failed. The job records `now` as its start, the progress starts over (the layer count
    /// stays) and the controller is printing.
    pub fn start_at(&mut self, safety_violation: bool, now: u64) -> (r: Result<(), EmbError>)
        ensures
            old(self).state_of() != PrintState::Idle ==> (r matches Err(EmbError::StateMachine(m))
                && m@ == "Cannot start from state "@ + print_state_name(old(self).state_of())),
            old(self).state_of() == PrintState::Idle && safety_violation ==> (r matches Err(
                EmbError::Safety(m)) && m@ == "Safety violation detected, cannot start print"@),
            r is Err ==> *final(self) == *old(self),
            r is Ok <==> (old(self).state_of() == PrintState::Idle && !safety_violation),
            r is Ok ==> started_at(*old(self), *final(self), now),
    {
        if self.state != PrintState::Idle {
            let mut m = String::from_str("Cannot start from state ");
            append_str(&mut m, self.state.name());
            return Err(EmbError::StateMachine(m));
        }
        if safety_violation {
            return Err(EmbError::Safety(String::from_str("Safety violation detected, cannot start print")));
        }
        self.state = PrintState::Starting;
        match &mut self.current_job {
            Some(job) => {
                job.started_at = Some(now);
            },
            None => {},
        }
        self.progress.percent_bits = 0;
        self.progress.current_layer = 0;
        self.progress.elapsed_seconds = 0;
        self.state = PrintState::Printing;
        Ok(())
    }

    /// Starts the loaded job now (see `start_at`).
    pub fn start(&mut self, safety_violation: bool) -> (r: Result<(), EmbError>)
        ensures
            old(self).state_of() != PrintState::Idle ==> (r matches Err(EmbError::StateMachine(m))
                && m@ == "Cannot start from state "@ + print_state_name(old(self).state_of())),
            old(self).state_of() == PrintState::Idle && safety_violation ==> (r matches Err(
                EmbError::Safety(m)) && m@ == "Safety violation detected, cannot start print"@),
            r is Ok <==> (old(self).state_of() == PrintState::Idle && !safety_violation),
            r is Ok ==> exists|now: u64| #[trigger] started_at(*old(self), *final(self), now),
            r is Err ==> *final(self) == *old(self),
    {
        let now = now_secs();
        let r = self.start_at(safety_violation, now);
        proof {
            if r is Ok {
                assert(started_at(*old(self), *self, now));
            }
        }
        r
    }

    /// Pauses a printing job; refused in any other state.
    pub fn pause(&mut self) -> (r: Result<(), EmbError>)
        ensures
            old(self).state_of() == PrintState::Printing ==> r is Ok && final(self).state_of()
                == PrintState::Paused && same_but_state(final(self), old(self))
                && final(self).stop_flag() == old(self).stop_flag(),
            old(self).state_of() != PrintState::Printing ==> (r matches Err(EmbError::StateMachine(m))
                && m@ == "Cannot pause from state "@ + print_state_name(old(self).state_of()) && *final(self) == *old(self)),
    {
        if self.state != PrintState::Printing {
            let mut m = String::from_str("Cannot pause from state ");
            append_str(&mut m, self.state.name());
            return Err(EmbError::StateMachine(m));
        }
        self.state = PrintState::Paused;
        Ok(())
    }

    /// Resumes a paused job; refused in any other state, and refused where a safety check
    /// failed.
    pub fn resume(&mut self, safety_violation: bool) -> (r: Result<(), EmbError>)
        ensures
            old(self).state_of() != PrintState::Paused ==> (r matches Err(EmbError::StateMachine(m))
                && m@ == "Cannot resume from state "@ + print_state_name(old(self).state_of())),
            old(self).state_of() == PrintState::Paused && safety_violation ==> (r matches Err(
                EmbError::Safety(m)) && m@ == "Safety violation detected, cannot resume print"@),
            r is Err ==> *final(self) == *old(self),
            r is Ok <==> (old(self).state_of() == PrintState::Paused && !safety_violation),
            r is Ok ==> final(self).state_of() == PrintState::Printing && same_but_state(final(self), old(self))
                && final(self).stop_flag() == old(self).stop_flag(),
    {
        if self.state != PrintState::Paused {
            let mut m = String::from_str("Cannot resume from state ");
            append_str(&mut m, self.state.name());
            return Err(EmbError::StateMachine(m));
        }
        if safety_violation {
            return Err(EmbError::Safety(String::from_str("Safety violation detected, cannot resume print")));
        }
        self.state = PrintState::Printing;
        Ok(())
    }

    /// Requests a stop: the controller is stopping, whatever its state.
    pub fn stop(&mut self)
        ensures
            final(self).state_of() == PrintState::Stopping,
            final(self).stop_flag(),
            same_but_state(final(self), old(self)),
    {
        self.stop_requested = true;
        self.state = PrintState::Stopping;
    }

    /// Emergency stop of the controller (after the safety controller has latched its own
    /// stop): as `stop`, and it succeeds.
    pub fn emergency_stop(&mut self) -> (r: Result<(), EmbError>)
        ensures
            r is Ok,
            final(self).state_of() == PrintState::Stopping,
            final(self).stop_flag(),
            same_but_state(final(self), old(self)),
    {
        self.stop();
        Ok(())
    }

    pub fn get_state(&self) -> (r: PrintState)
        ensures
            r == self.state_of(),
    {
        self.state
    }

    /// Whether a stop was requested.
    pub fn is_stop_requested(&self) -> (r: bool)
        ensures
            r == self.stop_flag(),
    {
        self.stop_requested
    }

    /// A copy of the current job.
    pub fn get_current_job(&self) -> (r: Option<PrintJob>)
        ensures
            match (r, self.job()) {
                (Some(a), Some(b)) => same_job(a, b),
                (None, None) => true,
                _ => false,
            },
    {
        match &self.current_job {
            Some(j) => Some(j.clone()),
            None => None,
        }
    }

    pub fn get_progress(&self) -> (r: PrintProgress)
        ensures
            r == self.progress_of(),
    {
        self.progress
    }

    /// Records progress at `now`: percentage and layer. With a started job the elapsed time is
    /// `now` minus its start, and `remaining` (the estimate worked out from a positive
    /// percentage) replaces the remaining time where it is given.
    pub fn update_progress_at(&mut self, percent_bits: u32, layer: u32, now: u64, remaining: Option<u64>)
        requires
            old(self).job() matches Some(j) && j.started_at matches Some(s) ==> s <= now,
        ensures
            final(self).progress_of().percent_bits == percent_bits,
            final(self).progress_of().current_layer == layer,
            final(self).progress_of().total_layers == old(self).progress_of().total_layers,
            (match old(self).job() {
                Some(j) => match j.started_at {
                    Some(s) => final(self).progress_of().elapsed_seconds == now - s
                        && final(self).progress_of().remaining_seconds == (match remaining {
                            Some(v) => v,
                            None => old(self).progress_of().remaining_seconds,
                        }),
                    None => final(self).progress_of().elapsed_seconds == old(self).progress_of().elapsed_seconds
                        && final(self).progress_of().remaining_seconds == old(self).progress_of().remaining_seconds,
                },
                None => final(self).progress_of().elapsed_seconds == old(self).progress_of().elapsed_seconds
                    && final(self).progress_of().remaining_seconds == old(self).progress_of().remaining_seconds,
            }),
            final(self).state_of() == old(self).state_of(),
            final(self).job() == old(self).job(),
            final(self).preset_list() == old(self).preset_list(),
    {
        self.progress.percent_bits = percent_bits;
        self.progress.current_layer = layer;
        match &self.current_job {
            Some(job) => {
                match job.started_at {
                    Some(started) => {
                        self.progress.elapsed_seconds = now - started;
                        match remaining {
                            Some(v) => {
                                self.progress.remaining_seconds = v;
                            },
                            None => {},
                        }
                    },
                    None => {},
                }
            },
            None => {},
        }
    }

    /// Copies of the presets, in order.
    pub fn get_presets(&self) -> (r: Vec<TemperaturePreset>)
        ensures
            r@.len() == self.preset_list().len(),
            forall|i: int| 0 <= i < r@.len() ==> same_preset(#[trigger] r@[i], self.preset_list()[i]),
    {
        let mut out: Vec<TemperaturePreset> = Vec::new();
        let mut i: usize = 0;
        while i < self.presets.len()
            invariant
                i <= self.presets@.len(),
                out@.len() == i,
                forall|k: int| 0 <= k < i ==> same_preset(#[trigger] out@[k], self.presets@[k]),
            decreases self.presets@.len() - i,
        {
            out.push(self.presets[i].clone());
            i = i + 1;
        }
        out
    }

    /// Appends a preset.
    pub fn add_preset(&mut self, preset: TemperaturePreset)
        ensures
            final(self).preset_list() == old(self).preset_list().push(preset),
            final(self).state_of() == old(self).state_of(),
            final(self).job() == old(self).job(),
            final(self).progress_of() == old(self).progress_of(),
    {
        self.presets.push(preset);
    }

    /// The first preset named `preset_name`, or `Config("Temperature preset '<name>' not
    /// found")` where there is none. The controller is unchanged.
    pub fn apply_preset(&self, preset_name: &str) -> (r: Result<TemperaturePreset, EmbError>)
        ensures
            (exists|i: int| 0 <= i < self.preset_list().len() && self.preset_list()[i].name@
                == preset_name@) <==> r is Ok,
            r matches Ok(p) ==> exists|i: int| {
                &&& 0 <= i < self.preset_list().len()
                &&& self.preset_list()[i].name@ == preset_name@
                &&& same_preset(p, self.preset_list()[i])
                &&& forall|k: int| 0 <= k < i ==> self.preset_list()[k].name@ != preset_name@
            },
            r matches Err(e) ==> e matches EmbError::Config(m) && m@ == "Temperature preset '"@
                + preset_name@ + "' not found"@,
    {
        let mut i: usize = 0;
        while i < self.presets.len()
            invariant
                i <= self.presets@.len(),
                forall|k: int| 0 <= k < i ==> self.presets@[k].name@ != preset_name@,
            decreases self.presets@.len() - i,
        {
            if str_eq(self.presets[i].name.as_str(), preset_name) {
                let p = self.presets[i].clone();
                assert(same_preset(p, self.preset_list()[i as int]));
                return Ok(p);
            }
            i = i + 1;
        }
        let mut m = String::from_str("Temperature preset '");
        append_str(&mut m, preset_name);
        append_str(&mut m, "' not found");
        Err(EmbError::Config(m))
    }

    pub fn motion_config(&self) -> (r: MotionConfig)
        ensures
            r == self.motion_of(),
    {
        self.motion_config
    }

    pub fn safety_config(&self) -> (r: SafetyConfig)
        ensures
            r == self.safety_of(),
    {
        self.safety_config
    }
}

impl Default for PrintController {
    fn default() -> (r: Self)
        ensures
            r.state_of() == PrintState::Idle,
            r.job() is None,
            !r.stop_flag(),
            r.preset_list().len() == 2,
    {
        PrintController::new()
    }
}

/// Pausing a printing job and resuming it brings the controller back to where it was: the
/// state is printing again and job, progress, presets and settings are untouched.
pub proof fn lemma_pause_resume_restores(c0: PrintController, c1: PrintController, c2: PrintController)
    requires
        c0.state_of() == PrintState::Printing,
        c1.state_of() == PrintState::Paused && same_but_state(&c1, &c0) && c1.stop_flag() == c0.stop_flag(),
        c2.state_of() == PrintState::Printing && same_but_state(&c2, &c1) && c2.stop_flag() == c1.stop_flag(),
    ensures
        c2.state_of() == c0.state_of(),
        same_but_state(&c2, &c0),
        c2.stop_flag() == c0.stop_flag(),
{
}

} // verus!
