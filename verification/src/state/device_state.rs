//! Cached device state: position, motion and flow status, the last synchronization and a
//! bounded history of snapshots. Coordinates and rates are single-precision bit patterns;
//! instants are milliseconds since the Unix epoch.

use vstd::prelude::*;
use vstd::string::*;
use crate::common::messages::{PrinterStatus, PositionData};

verus! {

/// Synchronization settings.
#[derive(Debug, Clone, Copy, PartialEq, Eq, Structural)]
pub struct DeviceStateConfig {
    /// Synchronization interval (milliseconds).
    pub sync_interval_ms: u64,
    pub enable_cache: bool,
    /// Number of snapshots kept.
    pub history_size: usize,
}

impl Default for DeviceStateConfig {
    /// Every 1000 ms, cached, 100 snapshots.
    fn default() -> (r: Self)
        ensures
            r == (DeviceStateConfig { sync_interval_ms: 1000, enable_cache: true, history_size: 100 }),
    {
        DeviceStateConfig { sync_interval_ms: 1000, enable_cache: true, history_size: 100 }
    }
}

/// A position (single-precision bit patterns).
#[derive(Debug, Clone, Copy, PartialEq, Eq, Structural)]
pub struct Position {
    pub x_bits: u32,
    pub y_bits: u32,
    pub z_bits: u32,
    pub e_bits: u32,
}

impl Default for Position {
    /// The origin.
    fn default() -> (r: Self)
        ensures
            r == (Position { x_bits: 0, y_bits: 0, z_bits: 0, e_bits: 0 }),
    {
        Position { x_bits: 0, y_bits: 0, z_bits: 0, e_bits: 0 }
    }
}

/// What the motion system is doing.
#[derive(Debug, Clone, Copy, PartialEq, Eq, Structural)]
pub enum MotionStatus {
    Idle,
    Moving,
    Homing,
    Printing,
    Error,
}

impl Default for MotionStatus {
    fn default() -> (r: Self)
        ensures
            r == MotionStatus::Idle,
    {
        MotionStatus::Idle
    }
}

/// The state name a motion status reports.
pub open spec fn motion_status_name(s: MotionStatus) -> Seq<char> {
    match s {
        MotionStatus::Idle => "idle"@,
        MotionStatus::Moving => "moving"@,
        MotionStatus::Homing => "homing"@,
        MotionStatus::Printing => "printing"@,
        MotionStatus::Error => "error"@,
    }
}

impl MotionStatus {
    pub fn name(&self) -> (r: &'static str)
        ensures
            r@ == motion_status_name(*self),
    {
        match self {
            MotionStatus::Idle => "idle",
            MotionStatus::Moving => "moving",
            MotionStatus::Homing => "homing",
            MotionStatus::Printing => "printing",
            MotionStatus::Error => "error",
        }
    }

    /// The status that motion statistics show: printing while steps have been taken, else
    /// idle.
    pub fn from_total_steps(total_steps: u64) -> (r: Self)
        ensures
            r == (if total_steps > 0 { MotionStatus::Printing } else { MotionStatus::Idle }),
    {
        if total_steps > 0 {
            MotionStatus::Printing
        } else {
            MotionStatus::Idle
        }
    }
}

/// Extrusion flow (single-precision bit patterns).
#[derive(Debug, Clone, Copy, PartialEq, Eq, Structural)]
pub struct FlowStatus {
    pub flow_rate_bits: u32,
    pub pressure_bits: u32,
    pub is_active: bool,
}

impl Default for FlowStatus {
    fn default() -> (r: Self)
        ensures
            r == (FlowStatus { flow_rate_bits: 0, pressure_bits: 0, is_active: false }),
    {
        FlowStatus { flow_rate_bits: 0, pressure_bits: 0, is_active: false }
    }
}

/// The device state at one instant.
#[derive(Debug, Clone, Copy, PartialEq, Eq, Structural)]
pub struct DeviceStateSnapshot {
    pub timestamp_ms: i64,
    pub position: Position,
    pub motion_status: MotionStatus,
    pub flow_status: FlowStatus,
}

/// What the motion statistics of the core server say: steps taken and the average speed
/// (single-precision bit pattern).
#[derive(Debug, Clone, Copy, PartialEq, Eq, Structural)]
pub struct MotionStats {
    pub total_steps: u64,
    pub avg_speed_bits: u32,
}

/// The cached device state.
pub struct DeviceStateManager {
    config: DeviceStateConfig,
    position: Position,
    motion_status: MotionStatus,
    flow_status: FlowStatus,
    last_sync_ms: u64,
    history: Vec<DeviceStateSnapshot>,
}

/// The history after saving `snap`: appended, and the oldest dropped once there are more than
/// `size`; nothing is kept when `size` is zero.
pub open spec fn saved_history(h: Seq<DeviceStateSnapshot>, snap: DeviceStateSnapshot, size: nat) -> Seq<DeviceStateSnapshot> {
    if size == 0 {
        h
    } else if h.len() + 1 > size {
        h.push(snap).drop_first()
    } else {
        h.push(snap)
    }
}

impl DeviceStateManager {
    pub closed spec fn config_of(&self) -> DeviceStateConfig {
        self.config
    }

    pub closed spec fn position_of(&self) -> Position {
        self.position
    }

    pub closed spec fn motion_of(&self) -> MotionStatus {
        self.motion_status
    }

    pub closed spec fn flow_of(&self) -> FlowStatus {
        self.flow_status
    }

    pub closed spec fn last_sync(&self) -> u64 {
        self.last_sync_ms
    }

    pub closed spec fn history_of(&self) -> Seq<DeviceStateSnapshot> {
        self.history@
    }

    /// The history never holds more snapshots than the configured size.
    pub open spec fn wf(&self) -> bool {
        self.history_of().len() <= self.config_of().history_size
    }

    /// State at the origin, idle, no flow, last synchronized at `now_ms`, no history.
    pub fn new(config: DeviceStateConfig, now_ms: u64) -> (r: Self)
        ensures
            r.wf(),
            r.config_of() == config,
            r.position_of() == (Position { x_bits: 0, y_bits: 0, z_bits: 0, e_bits: 0 }),
            r.motion_of() == MotionStatus::Idle,
            r.flow_of() == (FlowStatus { flow_rate_bits: 0, pressure_bits: 0, is_active: false }),
            r.last_sync() == now_ms,
            r.history_of().len() == 0,
    {
        DeviceStateManager {
            config,
            position: Position::default(),
            motion_status: MotionStatus::default(),
            flow_status: FlowStatus::default(),
            last_sync_ms: now_ms,
            history: Vec::new(),
        }
    }

    pub fn config(&self) -> (r: DeviceStateConfig)
        ensures
            r == self.config_of(),
    {
        self.config
    }

    pub fn get_position(&self) -> (r: Position)
        ensures
            r == self.position_of(),
    {
        self.position
    }

    pub fn get_motion_status(&self) -> (r: MotionStatus)
        ensures
            r == self.motion_of(),
    {
        self.motion_status
    }

    pub fn get_flow_status(&self) -> (r: FlowStatus)
        ensures
            r == self.flow_of(),
    {
        self.flow_status
    }

    pub fn update_position(&mut self, pos: Position)
        ensures
            final(self).position_of() == pos,
            final(self).motion_of() == old(self).motion_of(),
            final(self).flow_of() == old(self).flow_of(),
            final(self).history_of() == old(self).history_of(),
            final(self).config_of() == old(self).config_of(),
            final(self).last_sync() == old(self).last_sync(),
    {
        self.position = pos;
    }

    pub fn update_motion_status(&mut self, status: MotionStatus)
        ensures
            final(self).motion_of() == status,
            final(self).position_of() == old(self).position_of(),
            final(self).flow_of() == old(self).flow_of(),
            final(self).history_of() == old(self).history_of(),
            final(self).config_of() == old(self).config_of(),
            final(self).last_sync() == old(self).last_sync(),
    {
        self.motion_status = status;
    }

    pub fn update_flow_status(&mut self, status: FlowStatus)
        ensures
            final(self).flow_of() == status,
            final(self).position_of() == old(self).position_of(),
            final(self).motion_of() == old(self).motion_of(),
            final(self).history_of() == old(self).history_of(),
            final(self).config_of() == old(self).config_of(),
            final(self).last_sync() == old(self).last_sync(),
    {
        self.flow_status = status;
    }

    /// The current state, stamped `timestamp_ms`.
    pub fn take_snapshot_at(&self, timestamp_ms: i64) -> (r: DeviceStateSnapshot)
        ensures
            r == (DeviceStateSnapshot {
                timestamp_ms,
                position: self.position_of(),
                motion_status: self.motion_of(),
                flow_status: self.flow_of(),
            }),
    {
        DeviceStateSnapshot {
            timestamp_ms,
            position: self.position,
            motion_status: self.motion_status,
            flow_status: self.flow_status,
        }
    }

    /// Appends a snapshot stamped `timestamp_ms` to the history, dropping the oldest beyond
    /// the configured size; with a size of zero nothing is kept.
    pub fn save_snapshot_at(&mut self, timestamp_ms: i64)
        ensures
            old(self).wf() ==> final(self).wf(),
            final(self).history_of() == saved_history(
                old(self).history_of(),
                old(self).take_snapshot_at_spec(timestamp_ms),
                old(self).config_of().history_size as nat,
            ),
            final(self).position_of() == old(self).position_of(),
            final(self).motion_of() == old(self).motion_of(),
            final(self).flow_of() == old(self).flow_of(),
            final(self).config_of() == old(self).config_of(),
            final(self).last_sync() == old(self).last_sync(),
    {
        if self.config.history_size == 0 {
            return;
        }
        let snapshot = self.take_snapshot_at(timestamp_ms);
        self.history.push(snapshot);
        if self.history.len() > self.config.history_size {
            self.history.remove(0);
        }
    }

    /// The snapshot `take_snapshot_at` gives.
    pub open spec fn take_snapshot_at_spec(&self, timestamp_ms: i64) -> DeviceStateSnapshot {
        DeviceStateSnapshot {
            timestamp_ms,
            position: self.position_of(),
            motion_status: self.motion_of(),
            flow_status: self.flow_of(),
        }
    }

    /// The snapshots, oldest first.
    pub fn get_history(&self) -> (r: Vec<DeviceStateSnapshot>)
        ensures
            r@ == self.history_of(),
    {
        self.history.clone()
    }

    /// Records a synchronization at `now_ms` with what the core server answered: the
    /// position where it gave one; with motion statistics, the motion status they show and the
    /// flow (the average speed as flow rate, no pressure, active while steps were taken).
    /// Then a snapshot stamped `timestamp_ms` is saved.
    pub fn apply_sync(&mut self, position: Option<Position>, stats: Option<MotionStats>, now_ms: u64, timestamp_ms: i64)
        ensures
            old(self).wf() ==> final(self).wf(),
            final(self).position_of() == (match position {
                Some(p) => p,
                None => old(self).position_of(),
            }),
            final(self).motion_of() == (match stats {
                Some(s) => if s.total_steps > 0 { MotionStatus::Printing } else { MotionStatus::Idle },
                None => old(self).motion_of(),
            }),
            final(self).flow_of() == (match stats {
                Some(s) => FlowStatus { flow_rate_bits: s.avg_speed_bits, pressure_bits: 0, is_active: s.total_steps > 0 },
                None => old(self).flow_of(),
            }),
            final(self).last_sync() == now_ms,
            final(self).history_of() == saved_history(
                old(self).history_of(),
                DeviceStateSnapshot {
                    timestamp_ms,
                    position: final(self).position_of(),
                    motion_status: final(self).motion_of(),
                    flow_status: final(self).flow_of(),
                },
                old(self).config_of().history_size as nat,
            ),
            final(self).config_of() == old(self).config_of(),
    {
        match position {
            Some(p) => self.update_position(p),
            None => {},
        }
        match stats {
            Some(s) => {
                self.update_motion_status(MotionStatus::from_total_steps(s.total_steps));
                self.update_flow_status(
                    FlowStatus { flow_rate_bits: s.avg_speed_bits, pressure_bits: 0, is_active: s.total_steps > 0 },
                );
            },
            None => {},
        }
        self.last_sync_ms = now_ms;
        self.save_snapshot_at(timestamp_ms);
    }

    /// Printer status named after the motion status.
    pub fn get_printer_status(&self) -> (r: PrinterStatus)
        ensures
            r.state@ == motion_status_name(self.motion_of()),
            r.progress_percent_bits == 0,
            r.current_layer == 0,
            r.print_file is None,
    {
        PrinterStatus::new(String::from_str(self.motion_status.name()))
    }

    pub fn get_position_data(&self) -> (r: PositionData)
        ensures
            r == (PositionData {
                x_bits: self.position_of().x_bits,
                y_bits: self.position_of().y_bits,
                z_bits: self.position_of().z_bits,
                e_bits: self.position_of().e_bits,
            }),
    {
        PositionData::new(self.position.x_bits, self.position.y_bits, self.position.z_bits, self.position.e_bits)
    }

    pub fn get_last_sync_time(&self) -> (r: u64)
        ensures
            r == self.last_sync(),
    {
        self.last_sync_ms
    }

    /// Whether more than `threshold_ms` have passed at `now_ms` since the last
    /// synchronization (an earlier `now_ms` counts as no time passed).
    pub fn is_stale_at(&self, now_ms: u64, threshold_ms: u64) -> (r: bool)
        ensures
            r == (now_ms > self.last_sync() && now_ms - self.last_sync() > threshold_ms),
    {
        now_ms > self.last_sync_ms && now_ms - self.last_sync_ms > threshold_ms
    }
}

/// Saving snapshots keeps the history within its bound, and the newest snapshot is the last
/// one kept.
pub proof fn lemma_history_bounded(h: Seq<DeviceStateSnapshot>, snap: DeviceStateSnapshot, size: nat)
    requires
        h.len() <= size,
        size > 0,
    ensures
        saved_history(h, snap, size).len() <= size,
        saved_history(h, snap, size).last() == snap,
        saved_history(h, snap, size).len() == if h.len() == size { size as int } else { h.len() + 1int },
{
}

} // verus!
