//! Messages for the socket channels and the status records they carry. Real-valued
//! quantities are held as the bits of an IEEE-754 `f32` (`f32::to_bits`).

use vstd::prelude::*;
use vstd::string::*;
use crate::common::str_map::str_eq;

verus! {

/// A message of the WebSocket and UNIX socket channels.
#[derive(Debug)]
pub enum WebSocketMessage {
    Temperature { hotend_current_bits: u32, hotend_target_bits: u32, bed_current_bits: u32, bed_target_bits: u32 },
    Position { x_bits: u32, y_bits: u32, z_bits: u32, e_bits: u32 },
    Progress { percent_bits: u32, current_layer: u32, total_layers: u32 },
    State { from: String, to: String },
    PrintEvent { event: String, message: String },
    Alert { severity: String, message: String },
    LimitSwitch { x: bool, y: bool, z: bool },
    Homing { axis: String, status: String, progress_bits: u32 },
}

impl Clone for WebSocketMessage {
    fn clone(&self) -> (r: Self)
        ensures
            r == *self,
    {
        match self {
            WebSocketMessage::Temperature { hotend_current_bits, hotend_target_bits, bed_current_bits, bed_target_bits } => {
                WebSocketMessage::Temperature {
                    hotend_current_bits: *hotend_current_bits,
                    hotend_target_bits: *hotend_target_bits,
                    bed_current_bits: *bed_current_bits,
                    bed_target_bits: *bed_target_bits,
                }
            },
            WebSocketMessage::Position { x_bits, y_bits, z_bits, e_bits } => {
                WebSocketMessage::Position { x_bits: *x_bits, y_bits: *y_bits, z_bits: *z_bits, e_bits: *e_bits }
            },
            WebSocketMessage::Progress { percent_bits, current_layer, total_layers } => {
                WebSocketMessage::Progress { percent_bits: *percent_bits, current_layer: *current_layer, total_layers: *total_layers }
            },
            WebSocketMessage::State { from, to } => WebSocketMessage::State { from: from.clone(), to: to.clone() },
            WebSocketMessage::PrintEvent { event, message } => {
                WebSocketMessage::PrintEvent { event: event.clone(), message: message.clone() }
            },
            WebSocketMessage::Alert { severity, message } => {
                WebSocketMessage::Alert { severity: severity.clone(), message: message.clone() }
            },
            WebSocketMessage::LimitSwitch { x, y, z } => WebSocketMessage::LimitSwitch { x: *x, y: *y, z: *z },
            WebSocketMessage::Homing { axis, status, progress_bits } => {
                WebSocketMessage::Homing { axis: axis.clone(), status: status.clone(), progress_bits: *progress_bits }
            },
        }
    }
}

/// Summary of the printer's status.
#[derive(Debug)]
pub struct PrinterStatus {
    pub state: String,
    pub progress_percent_bits: u32,
    pub current_layer: u32,
    pub total_layers: u32,
    pub elapsed_seconds: u64,
    pub remaining_seconds: u64,
    pub print_file: Option<String>,
}

impl PrinterStatus {
    /// A status in the given state with no progress and no file.
    pub fn new(state: String) -> (r: Self)
        ensures
            r.state == state,
            r.progress_percent_bits == 0,
            r.current_layer == 0,
            r.total_layers == 0,
            r.elapsed_seconds == 0,
            r.remaining_seconds == 0,
            r.print_file is None,
    {
        PrinterStatus {
            state,
            progress_percent_bits: 0,
            current_layer: 0,
            total_layers: 0,
            elapsed_seconds: 0,
            remaining_seconds: 0,
            print_file: None,
        }
    }

    /// The idle status.
    pub fn idle() -> (r: Self)
        ensures
            r.state@ == "idle"@,
            r.progress_percent_bits == 0,
            r.current_layer == 0,
            r.total_layers == 0,
            r.elapsed_seconds == 0,
            r.remaining_seconds == 0,
            r.print_file is None,
    {
        PrinterStatus::new(String::from_str("idle"))
    }
}

impl Clone for PrinterStatus {
    fn clone(&self) -> (r: Self)
        ensures
            r == *self,
    {
        PrinterStatus {
            state: self.state.clone(),
            progress_percent_bits: self.progress_percent_bits,
            current_layer: self.current_layer,
            total_layers: self.total_layers,
            elapsed_seconds: self.elapsed_seconds,
            remaining_seconds: self.remaining_seconds,
            print_file: match &self.print_file {
                Some(f) => Some(f.clone()),
                None => None,
            },
        }
    }
}

/// Temperatures of the hotend, the bed and further heaters.
#[derive(Debug)]
pub struct TempStatus {
    pub hotend_current_bits: u32,
    pub hotend_target_bits: u32,
    pub bed_current_bits: u32,
    pub bed_target_bits: u32,
    /// Further heaters by name, with their current and target temperatures.
    pub additional_heaters: Vec<(String, (u32, u32))>,
}

impl Clone for TempStatus {
    fn clone(&self) -> (r: Self)
        ensures
            r.hotend_current_bits == self.hotend_current_bits,
            r.hotend_target_bits == self.hotend_target_bits,
            r.bed_current_bits == self.bed_current_bits,
            r.bed_target_bits == self.bed_target_bits,
            r.additional_heaters@ == self.additional_heaters@,
    {
        let mut heaters: Vec<(String, (u32, u32))> = Vec::new();
        let mut i: usize = 0;
        while i < self.additional_heaters.len()
            invariant
                i <= self.additional_heaters@.len(),
                heaters@ == self.additional_heaters@.subrange(0, i as int),
            decreases self.additional_heaters@.len() - i,
        {
            let name = self.additional_heaters[i].0.clone();
            let pair = self.additional_heaters[i].1;
            heaters.push((name, pair));
            proof {
                assert(heaters@ =~= self.additional_heaters@.subrange(0, i + 1));
            }
            i = i + 1;
        }
        proof {
            assert(heaters@ =~= self.additional_heaters@);
        }
        TempStatus {
            hotend_current_bits: self.hotend_current_bits,
            hotend_target_bits: self.hotend_target_bits,
            bed_current_bits: self.bed_current_bits,
            bed_target_bits: self.bed_target_bits,
            additional_heaters: heaters,
        }
    }
}

impl TempStatus {
    /// A status with the given temperatures and no further heater.
    pub fn new(hotend_current_bits: u32, hotend_target_bits: u32, bed_current_bits: u32, bed_target_bits: u32) -> (r: Self)
        ensures
            r.hotend_current_bits == hotend_current_bits,
            r.hotend_target_bits == hotend_target_bits,
            r.bed_current_bits == bed_current_bits,
            r.bed_target_bits == bed_target_bits,
            r.additional_heaters@.len() == 0,
    {
        TempStatus {
            hotend_current_bits,
            hotend_target_bits,
            bed_current_bits,
            bed_target_bits,
            additional_heaters: Vec::new(),
        }
    }

    /// Sets the temperatures of the heater `name`: an entry of that name is updated in place,
    /// otherwise one is appended.
    pub fn add_heater(&mut self, name: String, current_bits: u32, target_bits: u32)
        ensures
            (exists|i: int| 0 <= i < old(self).additional_heaters@.len()
                && #[trigger] old(self).additional_heaters@[i].0@ == name@) ==> {
                let i = choose|i: int| 0 <= i < old(self).additional_heaters@.len()
                    && #[trigger] old(self).additional_heaters@[i].0@ == name@;
                &&& (forall|j: int| 0 <= j < i ==> #[trigger] old(self).additional_heaters@[j].0@ != name@)
                    ==> final(self).additional_heaters@ == old(self).additional_heaters@.update(i, (name, (current_bits, target_bits)))
                &&& final(self).additional_heaters@.len() == old(self).additional_heaters@.len()
            },
            !(exists|i: int| 0 <= i < old(self).additional_heaters@.len()
                && #[trigger] old(self).additional_heaters@[i].0@ == name@)
                ==> final(self).additional_heaters@ == old(self).additional_heaters@.push(
                (name, (current_bits, target_bits)),
            ),
            final(self).hotend_current_bits == old(self).hotend_current_bits,
            final(self).hotend_target_bits == old(self).hotend_target_bits,
            final(self).bed_current_bits == old(self).bed_current_bits,
            final(self).bed_target_bits == old(self).bed_target_bits,
    {
        let mut i: usize = 0;
        while i < self.additional_heaters.len()
            invariant
                i <= self.additional_heaters@.len(),
                self.additional_heaters@ == old(self).additional_heaters@,
                self.hotend_current_bits == old(self).hotend_current_bits,
                self.hotend_target_bits == old(self).hotend_target_bits,
                self.bed_current_bits == old(self).bed_current_bits,
                self.bed_target_bits == old(self).bed_target_bits,
                forall|j: int| 0 <= j < i ==> #[trigger] self.additional_heaters@[j].0@ != name@,
            decreases self.additional_heaters@.len() - i,
        {
            if str_eq(self.additional_heaters[i].0.as_str(), name.as_str()) {
                proof {
                    let s = old(self).additional_heaters@;
                    assert(s[i as int].0@ == name@);
                    let c = choose|j: int| 0 <= j < s.len() && #[trigger] s[j].0@ == name@;
                    if c < i as int {
                        assert(s[c].0@ != name@);
                    }
                }
                self.additional_heaters.set(i, (name, (current_bits, target_bits)));
                return;
            }
            i = i + 1;
        }
        self.additional_heaters.push((name, (current_bits, target_bits)));
    }
}

/// A position of the four axes.
#[derive(Debug, Clone, Copy, PartialEq, Eq, Structural)]
pub struct PositionData {
    pub x_bits: u32,
    pub y_bits: u32,
    pub z_bits: u32,
    pub e_bits: u32,
}

impl PositionData {
    pub fn new(x_bits: u32, y_bits: u32, z_bits: u32, e_bits: u32) -> (r: Self)
        ensures
            r == (PositionData { x_bits, y_bits, z_bits, e_bits }),
    {
        PositionData { x_bits, y_bits, z_bits, e_bits }
    }

    /// The origin (every coordinate `0.0`).
    pub fn zero() -> (r: Self)
        ensures
            r == (PositionData { x_bits: 0, y_bits: 0, z_bits: 0, e_bits: 0 }),
    {
        PositionData::new(0, 0, 0, 0)
    }
}

/// The state shared with a display process.
#[derive(Debug, Clone, Copy, PartialEq, Eq, Structural)]
pub struct SharedState {
    pub printer_state: u8,
    pub position_x_bits: u32,
    pub position_y_bits: u32,
    pub position_z_bits: u32,
    pub position_e_bits: u32,
    pub hotend_current_bits: u32,
    pub hotend_target_bits: u32,
    pub bed_current_bits: u32,
    pub bed_target_bits: u32,
    pub progress_percent_bits: u32,
    pub current_layer: u32,
    pub total_layers: u32,
    pub update_flag: bool,
}

impl Default for SharedState {
    /// Everything zero and the update flag down.
    fn default() -> (r: Self)
        ensures
            r == (SharedState {
                printer_state: 0,
                position_x_bits: 0,
                position_y_bits: 0,
                position_z_bits: 0,
                position_e_bits: 0,
                hotend_current_bits: 0,
                hotend_target_bits: 0,
                bed_current_bits: 0,
                bed_target_bits: 0,
                progress_percent_bits: 0,
                current_layer: 0,
                total_layers: 0,
                update_flag: false,
            }),
    {
        SharedState {
            printer_state: 0,
            position_x_bits: 0,
            position_y_bits: 0,
            position_z_bits: 0,
            position_e_bits: 0,
            hotend_current_bits: 0,
            hotend_target_bits: 0,
            bed_current_bits: 0,
            bed_target_bits: 0,
            progress_percent_bits: 0,
            current_layer: 0,
            total_layers: 0,
            update_flag: false,
        }
    }
}

} // verus!
