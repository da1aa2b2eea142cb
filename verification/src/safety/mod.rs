//! Safety configuration, check results and the emergency-stop latch.
//!
//! Limits are single-precision values held as their bit patterns.

use vstd::prelude::*;
use vstd::string::*;
use crate::common::error::EmbError;
use crate::common::events::EventSeverity;
use crate::common::str_map::str_eq;

verus! {

/// Bounds of a temperature (single-precision bit patterns).
#[derive(Debug, Clone, Copy, PartialEq, Eq, Structural)]
pub struct TemperatureLimit {
    pub min_bits: u32,
    pub max_bits: u32,
}

/// Bounds of an axis position (single-precision bit patterns).
#[derive(Debug, Clone, Copy, PartialEq, Eq, Structural)]
pub struct MotionLimit {
    pub min_bits: u32,
    pub max_bits: u32,
}

/// 300.0, the default X and Y travel.
pub const XY_TRAVEL_BITS: u32 = 0x4396_0000;
/// 400.0, the default Z travel.
pub const Z_TRAVEL_BITS: u32 = 0x43c8_0000;

/// Safety settings: position limits per axis name, the emergency-stop timeout and whether
/// checks run at all.
#[derive(Debug, Clone)]
pub struct SafetyConfig {
    pub motion_limits: Vec<(String, MotionLimit)>,
    pub emergency_stop_timeout_ms: u64,
    pub enable_safety_checks: bool,
}

impl Default for SafetyConfig {
    /// x and y from 0.0 to 300.0, z from 0.0 to 400.0, a 1000 ms timeout, checks on.
    fn default() -> (r: Self)
        ensures
            r.motion_limits@.len() == 3,
            r.motion_limits@[0].0@ == "x"@,
            r.motion_limits@[0].1 == (MotionLimit { min_bits: 0, max_bits: XY_TRAVEL_BITS }),
            r.motion_limits@[1].0@ == "y"@,
            r.motion_limits@[1].1 == (MotionLimit { min_bits: 0, max_bits: XY_TRAVEL_BITS }),
            r.motion_limits@[2].0@ == "z"@,
            r.motion_limits@[2].1 == (MotionLimit { min_bits: 0, max_bits: Z_TRAVEL_BITS }),
            r.emergency_stop_timeout_ms == 1000,
            r.enable_safety_checks,
    {
        let mut motion_limits: Vec<(String, MotionLimit)> = Vec::new();
        motion_limits.push((String::from_str("x"), MotionLimit { min_bits: 0, max_bits: XY_TRAVEL_BITS }));
        motion_limits.push((String::from_str("y"), MotionLimit { min_bits: 0, max_bits: XY_TRAVEL_BITS }));
        motion_limits.push((String::from_str("z"), MotionLimit { min_bits: 0, max_bits: Z_TRAVEL_BITS }));
        SafetyConfig { motion_limits, emergency_stop_timeout_ms: 1000, enable_safety_checks: true }
    }
}

/// The limit of `axis`: that of its last entry, as a map built from the entries keeps.
pub open spec fn limit_of(limits: Seq<(String, MotionLimit)>, axis: Seq<char>) -> Option<MotionLimit>
    decreases limits.len(),
{
    if limits.len() == 0 {
        None
    } else if limits.last().0@ == axis {
        Some(limits.last().1)
    } else {
        limit_of(limits.drop_last(), axis)
    }
}

impl SafetyConfig {
    /// The position limit of `axis`, where one is configured.
    pub fn motion_limit(&self, axis: &str) -> (r: Option<MotionLimit>)
        ensures
            r == limit_of(self.motion_limits@, axis@),
    {
        let mut i: usize = self.motion_limits.len();
        assert(self.motion_limits@.subrange(0, i as int) =~= self.motion_limits@);
        while i > 0
            invariant
                i <= self.motion_limits@.len(),
                limit_of(self.motion_limits@, axis@) == limit_of(self.motion_limits@.subrange(0, i as int), axis@),
            decreases i,
        {
            let ghost pre = self.motion_limits@.subrange(0, i as int);
            assert(pre.drop_last() =~= self.motion_limits@.subrange(0, i - 1));
            if str_eq(self.motion_limits[i - 1].0.as_str(), axis) {
                return Some(self.motion_limits[i - 1].1);
            }
            i = i - 1;
        }
        None
    }
}

/// The outcome of one safety check.
#[derive(Debug, Clone)]
pub struct SafetyCheckResult {
    pub passed: bool,
    pub check_name: String,
    /// Warning message (where the check failed).
    pub message: Option<String>,
    pub severity: EventSeverity,
}

impl SafetyCheckResult {
    /// A passed check, at info severity.
    pub fn passed(check_name: String) -> (r: Self)
        ensures
            r.passed,
            r.check_name == check_name,
            r.message is None,
            r.severity == EventSeverity::Info,
    {
        SafetyCheckResult { passed: true, check_name, message: None, severity: EventSeverity::Info }
    }

    /// A failed check with its message and severity.
    pub fn failed(check_name: String, message: String, severity: EventSeverity) -> (r: Self)
        ensures
            !r.passed,
            r.check_name == check_name,
            r.message == Some(message),
            r.severity == severity,
    {
        SafetyCheckResult { passed: false, check_name, message: Some(message), severity }
    }
}

/// Whether any check of `results` failed.
pub fn any_failed(results: &Vec<SafetyCheckResult>) -> (r: bool)
    ensures
        r == exists|i: int| 0 <= i < results@.len() && !(#[trigger] results@[i]).passed,
{
    let mut i: usize = 0;
    while i < results.len()
        invariant
            i <= results@.len(),
            forall|k: int| 0 <= k < i ==> (#[trigger] results@[k]).passed,
        decreases results@.len() - i,
    {
        if !results[i].passed {
            return true;
        }
        i = i + 1;
    }
    false
}

/// The safety settings and the emergency-stop latch.
pub struct SafetyController {
    config: SafetyConfig,
    emergency_stop_active: bool,
}

impl SafetyController {
    pub closed spec fn config_of(&self) -> SafetyConfig {
        self.config
    }

    pub closed spec fn stop_latched(&self) -> bool {
        self.emergency_stop_active
    }

    /// A controller with `config`, the latch open.
    pub fn new(config: SafetyConfig) -> (r: Self)
        ensures
            r.config_of() == config,
            !r.stop_latched(),
    {
        SafetyController { config, emergency_stop_active: false }
    }

    /// Latches the emergency stop.
    pub fn handle_emergency_stop(&mut self) -> (r: Result<(), EmbError>)
        ensures
            r is Ok,
            final(self).stop_latched(),
            final(self).config_of() == old(self).config_of(),
    {
        self.emergency_stop_active = true;
        Ok(())
    }

    pub fn is_emergency_stop_active(&self) -> (r: bool)
        ensures
            r == self.stop_latched(),
    {
        self.emergency_stop_active
    }

    /// Opens the latch.
    pub fn clear_emergency_stop(&mut self) -> (r: Result<(), EmbError>)
        ensures
            r is Ok,
            !final(self).stop_latched(),
            final(self).config_of() == old(self).config_of(),
    {
        self.emergency_stop_active = false;
        Ok(())
    }

    /// Recovery after an error: the latch opens.
    pub fn recover_from_error(&mut self) -> (r: Result<(), EmbError>)
        ensures
            r is Ok,
            !final(self).stop_latched(),
            final(self).config_of() == old(self).config_of(),
    {
        self.clear_emergency_stop()
    }

    pub fn config(&self) -> (r: &SafetyConfig)
        ensures
            *r == self.config_of(),
    {
        &self.config
    }

    /// Replaces the settings; the latch stays as it is.
    pub fn update_config(&mut self, config: SafetyConfig)
        ensures
            final(self).config_of() == config,
            final(self).stop_latched() == old(self).stop_latched(),
    {
        self.config = config;
    }
}

impl Default for SafetyController {
    fn default() -> (r: Self)
        ensures
            !r.stop_latched(),
            r.config_of().enable_safety_checks,
            r.config_of().motion_limits@.len() == 3,
    {
        SafetyController::new(SafetyConfig::default())
    }
}

} // verus!
