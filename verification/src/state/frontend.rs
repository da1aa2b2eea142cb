//! What a display front end is shown: the cached status, temperatures and position, how
//! broadcast messages update them, and how the shared-memory record reads as them.

use vstd::prelude::*;
use vstd::string::*;
use crate::common::messages::{PrinterStatus, TempStatus, PositionData, SharedState, WebSocketMessage};
use crate::common::pin_parser::push_decimal;
use crate::common::text::decimal;

verus! {

/// The cache a front end reads.
pub struct FrontendCache {
    status: PrinterStatus,
    temperature: TempStatus,
    position: PositionData,
}

impl FrontendCache {
    pub closed spec fn status_of(&self) -> PrinterStatus {
        self.status
    }

    pub closed spec fn temperature_of(&self) -> TempStatus {
        self.temperature
    }

    pub closed spec fn position_of(&self) -> PositionData {
        self.position
    }

    /// Idle, every temperature and coordinate zero.
    pub fn new() -> (r: Self)
        ensures
            r.status_of().state@ == "idle"@,
            r.status_of().print_file is None,
            r.temperature_of().hotend_current_bits == 0,
            r.temperature_of().bed_current_bits == 0,
            r.temperature_of().additional_heaters@.len() == 0,
            r.position_of() == (PositionData { x_bits: 0, y_bits: 0, z_bits: 0, e_bits: 0 }),
    {
        FrontendCache { status: PrinterStatus::idle(), temperature: TempStatus::new(0, 0, 0, 0), position: PositionData::zero() }
    }

    pub fn update_status(&mut self, status: PrinterStatus)
        ensures
            final(self).status_of() == status,
            final(self).temperature_of() == old(self).temperature_of(),
            final(self).position_of() == old(self).position_of(),
    {
        self.status = status;
    }

    pub fn update_temperature(&mut self, temp: TempStatus)
        ensures
            final(self).temperature_of() == temp,
            final(self).status_of() == old(self).status_of(),
            final(self).position_of() == old(self).position_of(),
    {
        self.temperature = temp;
    }

    pub fn update_position(&mut self, position: PositionData)
        ensures
            final(self).position_of() == position,
            final(self).status_of() == old(self).status_of(),
            final(self).temperature_of() == old(self).temperature_of(),
    {
        self.position = position;
    }

    pub fn get_printer_status(&self) -> (r: &PrinterStatus)
        ensures
            *r == self.status_of(),
    {
        &self.status
    }

    pub fn get_temperature(&self) -> (r: &TempStatus)
        ensures
            *r == self.temperature_of(),
    {
        &self.temperature
    }

    pub fn get_position(&self) -> (r: PositionData)
        ensures
            r == self.position_of(),
    {
        self.position
    }

    /// Takes a broadcast message into the cache: temperatures, a position, or the state a
    /// state change goes to (with no progress); other messages change nothing.
    pub fn apply_message(&mut self, msg: &WebSocketMessage)
        ensures
            match *msg {
                WebSocketMessage::Temperature { hotend_current_bits, hotend_target_bits, bed_current_bits, bed_target_bits } => {
                    &&& final(self).temperature_of().hotend_current_bits == hotend_current_bits
                    &&& final(self).temperature_of().hotend_target_bits == hotend_target_bits
                    &&& final(self).temperature_of().bed_current_bits == bed_current_bits
                    &&& final(self).temperature_of().bed_target_bits == bed_target_bits
                    &&& final(self).temperature_of().additional_heaters@.len() == 0
                    &&& final(self).status_of() == old(self).status_of()
                    &&& final(self).position_of() == old(self).position_of()
                },
                WebSocketMessage::Position { x_bits, y_bits, z_bits, e_bits } => {
                    &&& final(self).position_of() == (PositionData { x_bits, y_bits, z_bits, e_bits })
                    &&& final(self).status_of() == old(self).status_of()
                    &&& final(self).temperature_of() == old(self).temperature_of()
                },
                WebSocketMessage::State { from: _, to } => {
                    &&& final(self).status_of().state@ == to@
                    &&& final(self).status_of().progress_percent_bits == 0
                    &&& final(self).status_of().print_file is None
                    &&& final(self).temperature_of() == old(self).temperature_of()
                    &&& final(self).position_of() == old(self).position_of()
                },
                _ => *final(self) == *old(self),
            },
    {
        match msg {
            WebSocketMessage::Temperature { hotend_current_bits, hotend_target_bits, bed_current_bits, bed_target_bits } => {
                self.temperature = TempStatus::new(*hotend_current_bits, *hotend_target_bits, *bed_current_bits, *bed_target_bits);
            },
            WebSocketMessage::Position { x_bits, y_bits, z_bits, e_bits } => {
                self.position = PositionData::new(*x_bits, *y_bits, *z_bits, *e_bits);
            },
            WebSocketMessage::State { from: _, to } => {
                self.status = PrinterStatus::new(to.clone());
            },
            _ => {},
        }
    }
}

/// The broadcast that follows a status update: a state change whose both ends name the new
/// state (the cache already holds it when the message is built).
pub fn status_broadcast(status: &PrinterStatus) -> (r: WebSocketMessage)
    ensures
        r matches WebSocketMessage::State { from, to } && from@ == status.state@ && to@ == status.state@,
{
    WebSocketMessage::State { from: status.state.clone(), to: status.state.clone() }
}

/// The broadcast of new temperatures.
pub fn temperature_broadcast(temp: &TempStatus) -> (r: WebSocketMessage)
    ensures
        r == (WebSocketMessage::Temperature {
            hotend_current_bits: temp.hotend_current_bits,
            hotend_target_bits: temp.hotend_target_bits,
            bed_current_bits: temp.bed_current_bits,
            bed_target_bits: temp.bed_target_bits,
        }),
{
    WebSocketMessage::Temperature {
        hotend_current_bits: temp.hotend_current_bits,
        hotend_target_bits: temp.hotend_target_bits,
        bed_current_bits: temp.bed_current_bits,
        bed_target_bits: temp.bed_target_bits,
    }
}

/// The broadcast of a new position.
pub fn position_broadcast(position: PositionData) -> (r: WebSocketMessage)
    ensures
        r == (WebSocketMessage::Position {
            x_bits: position.x_bits,
            y_bits: position.y_bits,
            z_bits: position.z_bits,
            e_bits: position.e_bits,
        }),
{
    WebSocketMessage::Position { x_bits: position.x_bits, y_bits: position.y_bits, z_bits: position.z_bits, e_bits: position.e_bits }
}

/// The status the shared record shows: state "state_" and its state number, no progress.
pub fn shared_printer_status(shared: &SharedState) -> (r: PrinterStatus)
    ensures
        r.state@ == "state_"@ + decimal(shared.printer_state as nat),
        r.progress_percent_bits == 0,
        r.print_file is None,
{
    let mut s = String::from_str("state_");
    push_decimal(&mut s, shared.printer_state as u64);
    PrinterStatus::new(s)
}

/// The temperatures the shared record shows.
pub fn shared_temperature(shared: &SharedState) -> (r: TempStatus)
    ensures
        r.hotend_current_bits == shared.hotend_current_bits,
        r.hotend_target_bits == shared.hotend_target_bits,
        r.bed_current_bits == shared.bed_current_bits,
        r.bed_target_bits == shared.bed_target_bits,
        r.additional_heaters@.len() == 0,
{
    TempStatus::new(shared.hotend_current_bits, shared.hotend_target_bits, shared.bed_current_bits, shared.bed_target_bits)
}

/// The position the shared record shows.
pub fn shared_position(shared: &SharedState) -> (r: PositionData)
    ensures
        r == (PositionData {
            x_bits: shared.position_x_bits,
            y_bits: shared.position_y_bits,
            z_bits: shared.position_z_bits,
            e_bits: shared.position_e_bits,
        }),
{
    PositionData::new(shared.position_x_bits, shared.position_y_bits, shared.position_z_bits, shared.position_e_bits)
}

} // verus!
