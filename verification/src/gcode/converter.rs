//! What a machine command becomes on the device: the heater it sets, the fan output it
//! drives, or a motion-parameter update; real-valued settings are carried over by the host.

use vstd::prelude::*;
use crate::config::printer_config::FanParams;

verus! {

/// Why a machine command cannot be turned into device commands.
#[derive(Debug, Clone, Copy, PartialEq, Eq, Structural)]
pub enum ConvertError {
    InvalidFanIndex(u8),
    InvalidHeaterId(u8),
    /// The configuration is missing (its message is kept by the host).
    MissingConfig,
}

/// The GPIO name of the fan at position `index` of the configured fans.
pub fn fan_gpio_name(fans: &Vec<FanParams>, index: u8) -> (r: Result<String, ConvertError>)
    ensures
        (index as int) < fans@.len() ==> (r matches Ok(n) && n@ == fans@[index as int].name@),
        (index as int) >= fans@.len() ==> r == Err::<String, ConvertError>(ConvertError::InvalidFanIndex(index)),
{
    let i = index as usize;
    if i < fans.len() {
        Ok(fans[i].name.clone())
    } else {
        Err(ConvertError::InvalidFanIndex(index))
    }
}


/// The part of a machine command that decides what the device is told.
#[derive(Debug, Clone, Copy, PartialEq, Eq, Structural)]
pub enum MachineRequest {
    /// M104 or M109 for hot end `tool`.
    HotendTemp { tool: u8 },
    /// M140 or M190.
    BedTemp,
    /// M106 for fan `index`.
    FanSpeed { index: u8 },
    /// M107 for fan `index`.
    FanOff { index: u8 },
    /// M92, M201, M203 or M204: motion parameters, kept by the server.
    MotionParams,
    /// M82 or M83: kept by the client.
    ExtruderMode,
}

/// What a machine command becomes on the device.
#[derive(Debug, Clone, PartialEq, Eq)]
pub enum DeviceAction {
    /// Set heater `heater_id` (0 the bed, 1 + n hot end n) to the command's temperature.
    SetTemperature { heater_id: u8 },
    /// Drive the GPIO output `name` at the command's fan duty.
    FanDuty { name: String },
    /// Switch the GPIO output `name` off.
    FanOff { name: String },
    /// A motion-parameter update, handled by the server.
    MotionParamUpdate,
    /// Nothing for the device.
    Nothing,
}

/// The device action of a machine request, with `fans` the configured fans: hot end `tool`
/// is heater `tool + 1`, the bed heater 0; a fan request drives the output named by fan
/// `index` and is refused for an index past the configured fans.
pub fn device_action(req: MachineRequest, fans: &Vec<FanParams>) -> (r: Result<DeviceAction, ConvertError>)
    requires
        req matches MachineRequest::HotendTemp { tool } ==> tool < 255,
    ensures
        match req {
            MachineRequest::HotendTemp { tool } => r == Ok::<DeviceAction, ConvertError>(
                DeviceAction::SetTemperature { heater_id: (tool + 1) as u8 },
            ),
            MachineRequest::BedTemp => r == Ok::<DeviceAction, ConvertError>(DeviceAction::SetTemperature { heater_id: 0 }),
            MachineRequest::FanSpeed { index } => if (index as int) < fans@.len() {
                r matches Ok(DeviceAction::FanDuty { name }) && name@ == fans@[index as int].name@
            } else {
                r == Err::<DeviceAction, ConvertError>(ConvertError::InvalidFanIndex(index))
            },
            MachineRequest::FanOff { index } => if (index as int) < fans@.len() {
                r matches Ok(DeviceAction::FanOff { name }) && name@ == fans@[index as int].name@
            } else {
                r == Err::<DeviceAction, ConvertError>(ConvertError::InvalidFanIndex(index))
            },
            MachineRequest::MotionParams => r == Ok::<DeviceAction, ConvertError>(DeviceAction::MotionParamUpdate),
            MachineRequest::ExtruderMode => r == Ok::<DeviceAction, ConvertError>(DeviceAction::Nothing),
        },
{
    match req {
        MachineRequest::HotendTemp { tool } => Ok(DeviceAction::SetTemperature { heater_id: tool + 1 }),
        MachineRequest::BedTemp => Ok(DeviceAction::SetTemperature { heater_id: 0 }),
        MachineRequest::FanSpeed { index } => match fan_gpio_name(fans, index) {
            Ok(name) => Ok(DeviceAction::FanDuty { name }),
            Err(e) => Err(e),
        },
        MachineRequest::FanOff { index } => match fan_gpio_name(fans, index) {
            Ok(name) => Ok(DeviceAction::FanOff { name }),
            Err(e) => Err(e),
        },
        MachineRequest::MotionParams => Ok(DeviceAction::MotionParamUpdate),
        MachineRequest::ExtruderMode => Ok(DeviceAction::Nothing),
    }
}

} // verus!
