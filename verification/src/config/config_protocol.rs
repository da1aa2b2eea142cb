//! Configuration frames for the motion controller board.
//!
//! A frame is `SOF, LEN, TYPE, payload.., CRC, EOF` where `LEN` is the payload length plus one
//! (kept to eight bits) and `CRC` is the CRC-8 (polynomial 0x31, initial value 0) of the bytes
//! from `LEN` through the end of the payload.

use vstd::prelude::*;
use vstd::string::*;
use vstd::utf8::encode_utf8;
use crate::common::bytes::{
    be16, le16, be32, i16_bits, i16_to_bits, push_be16, push_le16, push_be32, push_all, pad16,
    push_pad16,
};
use crate::common::pin_parser::{PinInfo, parse_pin, spec_parse_pin, push_decimal};
use crate::common::text::{append_str, decimal};
use crate::common::text::chars_of;
use crate::common::str_map::str_eq;
use crate::common::debug::{str_to_lowercase, unicode_lower};
use crate::config::printer_config::{
    PrinterJsonConfig, MotorParams, LimitSwitchAxis, LimitSwitchParams, TempSensorParams, HeaterPin,
    FanParams, OutputPinParams, InputPinParams, OutputPinType, InputPinType,
};

verus! {

pub const FRAME_SOF: u8 = 0xAA;

pub const FRAME_EOF: u8 = 0x55;

pub const FRAME_TYPE_CONFIG: u8 = 0x05;

pub const FRAME_TYPE_SET_TEMP: u8 = 0x24;

pub const FRAME_TYPE_STATUS_R: u8 = 0x04;

pub const FRAME_TYPE_STATUS_QUERY: u8 = 0x03;

pub const CONFIG_SUBTYPE_MOTOR: u8 = 0x01;

pub const CONFIG_SUBTYPE_TEMP: u8 = 0x02;

pub const CONFIG_SUBTYPE_LIMIT_SWITCH: u8 = 0x03;

pub const CONFIG_SUBTYPE_MOTION: u8 = 0x04;

pub const CONFIG_SUBTYPE_SYSTEM: u8 = 0x05;

pub const CONFIG_SUBTYPE_GPIO: u8 = 0x06;

pub const CONFIG_SUBTYPE_GPIO_OUTPUT: u8 = 0x07;

pub const CONFIG_SUBTYPE_GPIO_INPUT: u8 = 0x08;

pub const CONFIG_SUBTYPE_QUERY: u8 = 0x10;

pub const CONFIG_SUBTYPE_TEMP_SENSOR: u8 = 0x20;

pub const CONFIG_SUBTYPE_HEATER: u8 = 0x21;

pub const CONFIG_SUBTYPE_FAN: u8 = 0x08;

pub const GPIO_TYPE_DIGITAL: u8 = 0;

pub const GPIO_TYPE_PWM: u8 = 1;

pub const GPIO_TYPE_ANALOG: u8 = 2;

pub const GPIO_PULL_NONE: u8 = 0;

pub const GPIO_PULL_UP: u8 = 1;

pub const GPIO_PULL_DOWN: u8 = 2;

pub const GPIO_EVENT_NONE: u8 = 0;

pub const GPIO_EVENT_FILAMENT_RUNOUT: u8 = 1;

pub const GPIO_EVENT_POWER_LOSS: u8 = 2;

pub const GPIO_EVENT_CUSTOM: u8 = 3;

pub const GPIO_REPORT_MODE_ON_CHANGE: u8 = 0;

pub const GPIO_REPORT_MODE_INTERVAL: u8 = 1;

pub const GPIO_REPORT_MODE_NONE: u8 = 2;

pub const GPIO_TRIGGER_RISING: u8 = 0;

pub const GPIO_TRIGGER_FALLING: u8 = 1;

pub const GPIO_TRIGGER_BOTH: u8 = 2;

/// Bit pattern of the single-precision value 0.01, the default report threshold.
pub const DEFAULT_REPORT_THRESHOLD_BITS: u32 = 0x3C23D70A;

/// Bit pattern of the single-precision value 1.0.
pub const ONE_BITS: u32 = 0x3F800000;

// ---------------------------------------------------------------------------
// CRC-8
// ---------------------------------------------------------------------------

/// One shift-register step of the CRC-8 with polynomial 0x31.
pub open spec fn crc8_bit_step(crc: u8) -> u8 {
    if crc & 0x80 != 0 {
        ((crc << 1u8) ^ 0x31u8) as u8
    } else {
        (crc << 1u8) as u8
    }
}

/// `n` shift-register steps.
pub open spec fn crc8_shift(crc: u8, n: nat) -> u8
    decreases n,
{
    if n == 0 {
        crc
    } else {
        crc8_bit_step(crc8_shift(crc, (n - 1) as nat))
    }
}

/// Folds one byte into the CRC.
pub open spec fn crc8_byte(crc: u8, b: u8) -> u8 {
    crc8_shift(crc ^ b, 8)
}

/// CRC-8 (polynomial 0x31, initial value 0, no final xor) of a byte sequence.
pub open spec fn crc8_spec(data: Seq<u8>) -> u8
    decreases data.len(),
{
    if data.len() == 0 {
        0
    } else {
        crc8_byte(crc8_spec(data.drop_last()), data.last())
    }
}

proof fn lemma_crc8_shift_zero(n: nat)
    ensures
        crc8_shift(0, n) == 0,
    decreases n,
{
    if n > 0 {
        lemma_crc8_shift_zero((n - 1) as nat);
        assert(crc8_bit_step(0u8) == 0u8) by (bit_vector);
    }
}

/// Appending the checksum of a byte sequence to it gives a sequence whose checksum is zero:
/// a receiver can check a frame body by recomputing the CRC over body and checksum.
pub proof fn lemma_crc8_append_self(data: Seq<u8>)
    ensures
        crc8_spec(data.push(crc8_spec(data))) == 0,
{
    let c = crc8_spec(data);
    assert(data.push(c).drop_last() =~= data);
    assert(c ^ c == 0u8) by (bit_vector);
    lemma_crc8_shift_zero(8);
}

fn crc8_step(crc: u8) -> (r: u8)
    ensures
        r == crc8_bit_step(crc),
{
    if (crc & 0x80) != 0 {
        (crc << 1) ^ 0x31
    } else {
        crc << 1
    }
}

// ---------------------------------------------------------------------------
// Frame layout
// ---------------------------------------------------------------------------

/// The length byte: payload length plus one, modulo 256.
pub open spec fn frame_len_byte(payload_len: nat) -> u8 {
    ((payload_len + 1) % 256) as u8
}

/// A complete frame around a payload.
pub open spec fn spec_wrap_frame(frame_type: u8, payload: Seq<u8>) -> Seq<u8> {
    let body = seq![FRAME_SOF, frame_len_byte(payload.len()), frame_type] + payload;
    body.push(crc8_spec(body.drop_first())).push(FRAME_EOF)
}

/// Optional pin field with a default.
pub open spec fn port_or(p: Option<PinInfo>, d: u8) -> u8 {
    match p {
        Some(i) => i.port,
        None => d,
    }
}

pub open spec fn pin_or(p: Option<PinInfo>, d: u8) -> u8 {
    match p {
        Some(i) => i.pin,
        None => d,
    }
}

pub open spec fn inverted_byte(p: Option<PinInfo>) -> u8 {
    match p {
        Some(i) => if i.inverted {
            1u8
        } else {
            0u8
        },
        None => 0u8,
    }
}

pub open spec fn bool_byte(b: bool) -> u8 {
    if b {
        1u8
    } else {
        0u8
    }
}

/// First UTF-8 byte of a text, or a default when it is empty.
pub open spec fn first_byte_or(s: Seq<char>, d: u8) -> u8 {
    let b = encode_utf8(s);
    if b.len() > 0 {
        b[0]
    } else {
        d
    }
}

/// Motor entry: axis letter, step port/pin, dir port/pin/inverted, enable port/pin/inverted,
/// driver UART port/pin (unparsable pins give zeros).
pub open spec fn motor_entry(m: MotorParams) -> Seq<u8> {
    let step = spec_parse_pin(m.step_pin@);
    let dir = spec_parse_pin(m.dir_pin@);
    let en = spec_parse_pin(m.enable_pin@);
    let uart = spec_parse_pin(m.driver.uart_pin@);
    seq![
        first_byte_or(m.axis@, 0x58u8),
        port_or(step, 0),
        pin_or(step, 0),
        port_or(dir, 0),
        pin_or(dir, 0),
        inverted_byte(dir),
        port_or(en, 0),
        pin_or(en, 0),
        inverted_byte(en),
        port_or(uart, 0),
        pin_or(uart, 0),
    ]
}

pub open spec fn motor_entries(ms: Seq<MotorParams>) -> Seq<u8>
    decreases ms.len(),
{
    if ms.len() == 0 {
        Seq::empty()
    } else {
        motor_entries(ms.drop_last()) + motor_entry(ms.last())
    }
}

pub open spec fn spec_motor_frame(ms: Seq<MotorParams>) -> Seq<u8> {
    spec_wrap_frame(FRAME_TYPE_CONFIG, seq![CONFIG_SUBTYPE_MOTOR] + motor_entries(ms))
}

/// Pull code of a limit switch: `"up"` is 1, `"down"` is 2, anything else 0.
pub open spec fn limit_pull_code(s: Seq<char>) -> u8 {
    if s == seq!['u', 'p'] {
        1u8
    } else if s == seq!['d', 'o', 'w', 'n'] {
        2u8
    } else {
        0u8
    }
}

/// Four bytes of one limit switch: `(port << 1) | inverted`, pin, `(pull << 2) | (active << 1)`,
/// and a zero; an unparsable pin gives port and pin 0xFF.
pub open spec fn limit_axis_entry(a: LimitSwitchAxis) -> Seq<u8> {
    let p = spec_parse_pin(a.pin@);
    seq![
        ((port_or(p, 0xFF) << 1u8) | inverted_byte(p)) as u8,
        pin_or(p, 0xFF),
        ((limit_pull_code(a.pull@) << 2u8) | (bool_byte(a.active_high) << 1u8)) as u8,
        0u8,
    ]
}

pub open spec fn spec_limit_switch_frame(l: LimitSwitchParams) -> Seq<u8> {
    spec_wrap_frame(
        FRAME_TYPE_CONFIG,
        seq![CONFIG_SUBTYPE_LIMIT_SWITCH] + limit_axis_entry(l.x) + limit_axis_entry(l.y)
            + limit_axis_entry(l.z) + le16(l.homing_speed_mm_per_s) + seq![
            l.homing_dir_x,
            l.homing_dir_y,
            l.homing_dir_z,
        ],
    )
}

/// Thermistor frame payload; the ADC pin defaults to port 2, pin 0, and `beta` is sent as its
/// low 16 bits.
pub open spec fn temp_payload(subtype: u8, index: u8, t: TempSensorParams) -> Seq<u8> {
    let adc = spec_parse_pin(t.adc_pin@);
    seq![subtype, index, port_or(adc, 2), pin_or(adc, 0)] + be16((t.beta % 65536) as u16) + be32(
        t.ntc_resistance_25c,
    ) + be32(t.pullup_resistor) + be32(t.kp_bits) + be32(t.ki_bits) + be32(t.kd_bits) + be16(
        t.pid_interval_ms,
    ) + be16(i16_bits(t.min_temp)) + be16(t.max_temp)
}

pub open spec fn spec_temp_frame(subtype: u8, index: u8, t: TempSensorParams) -> Seq<u8> {
    spec_wrap_frame(FRAME_TYPE_CONFIG, temp_payload(subtype, index, t))
}

/// Heater frame payload; an unparsable pin gives port and pin 0xFF.
pub open spec fn heater_payload(subtype: u8, index: u8, h: HeaterPin) -> Seq<u8> {
    let p = spec_parse_pin(h.pin@);
    seq![subtype, index, port_or(p, 0xFF), pin_or(p, 0xFF), bool_byte(h.active_high)] + be16(
        h.pwm_freq_hz,
    ) + seq![h.max_power] + be16(i16_bits(h.safety.max_temp_deviation)) + be16(
        i16_bits(h.safety.min_temp_deviation),
    ) + be32(h.safety.heating_timeout_ms) + be16(h.safety.sensor_fault_threshold)
}

pub open spec fn spec_heater_frame(subtype: u8, index: u8, h: HeaterPin) -> Seq<u8> {
    spec_wrap_frame(FRAME_TYPE_CONFIG, heater_payload(subtype, index, h))
}

/// Fan frame: subtype 0x08, first name byte (`F` when empty), port/pin (0xFF when unparsable),
/// active level, PWM frequency little-endian.
pub open spec fn spec_fan_frame(f: FanParams) -> Seq<u8> {
    let p = spec_parse_pin(f.pin@);
    spec_wrap_frame(
        FRAME_TYPE_CONFIG,
        seq![
            CONFIG_SUBTYPE_FAN,
            first_byte_or(f.name@, 0x46u8),
            port_or(p, 0xFF),
            pin_or(p, 0xFF),
            bool_byte(f.active_high),
        ] + le16(f.pwm_freq_hz),
    )
}

pub open spec fn output_type_code(t: OutputPinType) -> u8 {
    match t {
        OutputPinType::Pwm => GPIO_TYPE_PWM,
        OutputPinType::Digital => GPIO_TYPE_DIGITAL,
    }
}

pub open spec fn input_type_code(t: InputPinType) -> u8 {
    match t {
        InputPinType::Digital => GPIO_TYPE_DIGITAL,
        InputPinType::Analog => GPIO_TYPE_ANALOG,
    }
}

/// Payload of a GPIO output: the active level sent is `inverted XOR active_high`.
pub open spec fn output_payload(o: OutputPinParams, p: PinInfo) -> Seq<u8> {
    seq![CONFIG_SUBTYPE_GPIO_OUTPUT, 0u8] + pad16(encode_utf8(o.name@)) + seq![
        p.port,
        p.pin,
        output_type_code(o.pin_type),
        bool_byte(p.inverted != o.active_high),
    ] + le16(o.pwm_freq_hz) + be32(o.default_value_bits) + be32(o.shutdown_value_bits) + be32(
        o.max_value_bits,
    ) + seq![0u8, 0u8]
}

/// The frames of a GPIO output: none when its pin does not parse, else one.
pub open spec fn spec_gpio_output_frames(o: OutputPinParams) -> Seq<Seq<u8>> {
    match spec_parse_pin(o.pin@) {
        Some(p) => seq![spec_wrap_frame(FRAME_TYPE_CONFIG, output_payload(o, p))],
        None => Seq::empty(),
    }
}

/// Whether the text, lower-cased as `str::to_lowercase` does it, is the literal `lit`.
pub open spec fn lower_is(s: Seq<char>, lit: Seq<char>) -> bool {
    unicode_lower(s) == lit
}

pub open spec fn input_pull_code(s: Seq<char>) -> u8 {
    if lower_is(s, "up"@) {
        GPIO_PULL_UP
    } else if lower_is(s, "down"@) {
        GPIO_PULL_DOWN
    } else {
        GPIO_PULL_NONE
    }
}

pub open spec fn report_mode_code(s: Seq<char>) -> u8 {
    if lower_is(s, "on_change"@) {
        GPIO_REPORT_MODE_ON_CHANGE
    } else if lower_is(s, "interval"@) {
        GPIO_REPORT_MODE_INTERVAL
    } else {
        GPIO_REPORT_MODE_NONE
    }
}

pub open spec fn trigger_code(t: Option<Seq<char>>) -> u8 {
    match t {
        Some(s) => if lower_is(s, "falling"@) {
            GPIO_TRIGGER_FALLING
        } else if lower_is(s, "both"@) {
            GPIO_TRIGGER_BOTH
        } else {
            GPIO_TRIGGER_RISING
        },
        None => GPIO_TRIGGER_RISING,
    }
}

pub open spec fn event_code(s: Seq<char>) -> u8 {
    if lower_is(
        s,
        "filament_runout"@,
    ) {
        GPIO_EVENT_FILAMENT_RUNOUT
    } else if lower_is(s, "power_loss"@) {
        GPIO_EVENT_POWER_LOSS
    } else if lower_is(s, "custom"@) {
        GPIO_EVENT_CUSTOM
    } else {
        GPIO_EVENT_NONE
    }
}

/// Event, report mode, trigger, interval (low 16 bits) and threshold bits of an input; without
/// a report section all are the defaults and the event is not read.
pub open spec fn input_report_fields(i: InputPinParams) -> (u8, u8, u8, u16, u32) {
    match i.report {
        Some(r) => (
            match i.event {
                Some(e) => event_code(e.action@),
                None => GPIO_EVENT_NONE,
            },
            report_mode_code(r.mode@),
            trigger_code(
                match r.trigger {
                    Some(t) => Some(t@),
                    None => None,
                },
            ),
            (match r.interval_ms {
                Some(n) => n % 65536,
                None => 0,
            }) as u16,
            match r.threshold_bits {
                Some(b) => b,
                None => DEFAULT_REPORT_THRESHOLD_BITS,
            },
        ),
        None => (GPIO_EVENT_NONE, GPIO_REPORT_MODE_NONE, GPIO_TRIGGER_RISING, 0u16, 0u32),
    }
}

pub open spec fn input_calibration_bytes(i: InputPinParams) -> Seq<u8> {
    match i.calibration {
        Some(c) => be32(c.offset_bits) + be32(c.scale_bits) + be32(c.min_value_bits) + be32(
            c.max_value_bits,
        ),
        None => be32(0) + be32(ONE_BITS) + be32(0) + be32(ONE_BITS),
    }
}

pub open spec fn input_payload(i: InputPinParams, p: PinInfo) -> Seq<u8> {
    let f = input_report_fields(i);
    seq![CONFIG_SUBTYPE_GPIO_INPUT, 0u8] + pad16(encode_utf8(i.name@)) + seq![
        p.port,
        p.pin,
        input_type_code(i.pin_type),
        input_pull_code(i.pull@),
        bool_byte(p.inverted != i.active_high),
    ] + le16(i.debounce_ms) + seq![f.0, f.1, f.2] + le16(f.3) + be32(f.4) + input_calibration_bytes(
        i,
    ) + seq![i.adc_resolution]
}

/// The frames of a GPIO input: none when its pin does not parse, else one.
pub open spec fn spec_gpio_input_frames(i: InputPinParams) -> Seq<Seq<u8>> {
    match spec_parse_pin(i.pin@) {
        Some(p) => seq![spec_wrap_frame(FRAME_TYPE_CONFIG, input_payload(i, p))],
        None => Seq::empty(),
    }
}

pub open spec fn fan_frames(fs: Seq<FanParams>) -> Seq<Seq<u8>>
    decreases fs.len(),
{
    if fs.len() == 0 {
        Seq::empty()
    } else {
        fan_frames(fs.drop_last()) + (if fs.last().pin@.len() > 0 {
            seq![spec_fan_frame(fs.last())]
        } else {
            Seq::empty()
        })
    }
}

pub open spec fn output_frames(os: Seq<OutputPinParams>) -> Seq<Seq<u8>>
    decreases os.len(),
{
    if os.len() == 0 {
        Seq::empty()
    } else {
        output_frames(os.drop_last()) + (if os.last().pin@.len() > 0 {
            spec_gpio_output_frames(os.last())
        } else {
            Seq::empty()
        })
    }
}

pub open spec fn input_frames(is: Seq<InputPinParams>) -> Seq<Seq<u8>>
    decreases is.len(),
{
    if is.len() == 0 {
        Seq::empty()
    } else {
        input_frames(is.drop_last()) + (if is.last().pin@.len() > 0 {
            spec_gpio_input_frames(is.last())
        } else {
            Seq::empty()
        })
    }
}

/// The byte contents of a list of frames.
pub open spec fn frames_view(v: Seq<Vec<u8>>) -> Seq<Seq<u8>> {
    v.map_values(|f: Vec<u8>| f@)
}

pub open spec fn pa0() -> Seq<char> {
    seq!['P', 'A', '0']
}

pub open spec fn one_frame_if(b: bool, f: Seq<u8>) -> Seq<Seq<u8>> {
    if b {
        seq![f]
    } else {
        Seq::empty()
    }
}

/// All configuration frames of a printer configuration, in sending order: motors (when any),
/// limit switches (when some pin differs from `PA0`), bed and hot-end thermistors and heaters
/// (when their pins are set), fans, GPIO outputs and GPIO inputs (those with a pin).
pub open spec fn spec_config_frames(c: PrinterJsonConfig) -> Seq<Seq<u8>> {
    one_frame_if(c.motor@.len() > 0, spec_motor_frame(c.motor@)) + one_frame_if(
        c.limit_switch.x.pin@ != pa0() || c.limit_switch.y.pin@ != pa0() || c.limit_switch.z.pin@
            != pa0(),
        spec_limit_switch_frame(c.limit_switch),
    ) + one_frame_if(
        c.temperature.hotbed.adc_pin@.len() > 0,
        spec_temp_frame(CONFIG_SUBTYPE_TEMP_SENSOR, 0, c.temperature.hotbed),
    ) + one_frame_if(
        c.temperature.hotend.adc_pin@.len() > 0,
        spec_temp_frame(CONFIG_SUBTYPE_TEMP_SENSOR, 1, c.temperature.hotend),
    ) + one_frame_if(
        c.heater.hotbed.pin@.len() > 0,
        spec_heater_frame(CONFIG_SUBTYPE_HEATER, 0, c.heater.hotbed),
    ) + one_frame_if(
        c.heater.hotend.pin@.len() > 0,
        spec_heater_frame(CONFIG_SUBTYPE_HEATER, 1, c.heater.hotend),
    ) + fan_frames(c.fan@) + output_frames(c.gpio.output@) + input_frames(c.gpio.input@)
}


// ---------------------------------------------------------------------------
// Builders
// ---------------------------------------------------------------------------

fn port_or_exec(p: Option<PinInfo>, d: u8) -> (r: u8)
    ensures
        r == port_or(p, d),
{
    match p {
        Some(i) => i.port,
        None => d,
    }
}

fn pin_or_exec(p: Option<PinInfo>, d: u8) -> (r: u8)
    ensures
        r == pin_or(p, d),
{
    match p {
        Some(i) => i.pin,
        None => d,
    }
}

fn inverted_byte_exec(p: Option<PinInfo>) -> (r: u8)
    ensures
        r == inverted_byte(p),
{
    match p {
        Some(i) => if i.inverted {
            1
        } else {
            0
        },
        None => 0,
    }
}

fn bool_byte_exec(b: bool) -> (r: u8)
    ensures
        r == bool_byte(b),
{
    if b {
        1
    } else {
        0
    }
}

fn first_byte_or_exec(s: &String, d: u8) -> (r: u8)
    ensures
        r == first_byte_or(s@, d),
{
    let b = s.as_str().as_bytes();
    if b.len() > 0 {
        b[0]
    } else {
        d
    }
}

/// Accumulates configuration frames; the public builders are associated functions.
pub struct ConfigFrameBuilder {
    buffer: Vec<u8>,
}

impl View for ConfigFrameBuilder {
    type V = Seq<u8>;

    closed spec fn view(&self) -> Seq<u8> {
        self.buffer@
    }
}

impl Default for ConfigFrameBuilder {
    fn default() -> (r: Self)
        ensures
            r@ == Seq::<u8>::empty(),
    {
        ConfigFrameBuilder::new()
    }
}

impl ConfigFrameBuilder {
    /// A builder with an empty buffer.
    pub fn new() -> (r: Self)
        ensures
            r@ == Seq::<u8>::empty(),
    {
        ConfigFrameBuilder { buffer: Vec::new() }
    }

    /// CRC-8 (polynomial 0x31, initial value 0) of `data`.
    pub fn crc8(data: &[u8]) -> (r: u8)
        ensures
            r == crc8_spec(data@),
    {
        let mut crc: u8 = 0;
        let mut i: usize = 0;
        while i < data.len()
            invariant
                i <= data.len(),
                crc == crc8_spec(data@.subrange(0, i as int)),
            decreases data.len() - i,
        {
            let ghost c0 = crc ^ data[i as int];
            crc = crc ^ data[i];
            let mut j: usize = 0;
            while j < 8
                invariant
                    j <= 8,
                    crc == crc8_shift(c0, j as nat),
                decreases 8 - j,
            {
                crc = crc8_step(crc);
                j = j + 1;
            }
            proof {
                let pre = data@.subrange(0, i as int);
                assert(data@.subrange(0, i + 1).drop_last() =~= pre);
                assert(data@.subrange(0, i + 1).last() == data@[i as int]);
            }
            i = i + 1;
        }
        proof {
            assert(data@.subrange(0, data@.len() as int) =~= data@);
        }
        crc
    }

    /// Frames a payload: SOF, length, type, payload, CRC over length..payload, EOF.
    pub fn wrap_frame(frame_type: u8, payload: &[u8]) -> (r: Vec<u8>)
        ensures
            r@ == spec_wrap_frame(frame_type, payload@),
    {
        let len: u8 = ((payload.len() % 256 + 1) % 256) as u8;
        let mut tail: Vec<u8> = Vec::new();
        tail.push(len);
        tail.push(frame_type);
        push_all(&mut tail, payload);
        let crc = Self::crc8(tail.as_slice());
        let mut frame: Vec<u8> = Vec::new();
        frame.push(FRAME_SOF);
        push_all(&mut frame, tail.as_slice());
        frame.push(crc);
        frame.push(FRAME_EOF);
        proof {
            let body = seq![FRAME_SOF, frame_len_byte(payload@.len()), frame_type] + payload@;
            assert(((payload@.len() % 256 + 1) % 256) == ((payload@.len() + 1) % 256));
            assert(body.drop_first() =~= tail@);
            assert(frame@ =~= body.push(crc8_spec(body.drop_first())).push(FRAME_EOF));
        }
        frame
    }

    /// The status query frame (type 0x03, empty payload).
    pub fn build_status_query_frame() -> (r: Vec<u8>)
        ensures
            r@ == spec_wrap_frame(FRAME_TYPE_STATUS_QUERY, Seq::empty()),
    {
        let empty: Vec<u8> = Vec::new();
        Self::wrap_frame(FRAME_TYPE_STATUS_QUERY, empty.as_slice())
    }

    /// The set-temperature frame: heater id (0 bed, 1 hot end) and the target temperature's
    /// single-precision bit pattern, big-endian.
    pub fn build_set_temp_frame(heater_id: u8, target_temp_bits: u32) -> (r: Vec<u8>)
        ensures
            r@ == spec_wrap_frame(FRAME_TYPE_SET_TEMP, seq![heater_id] + be32(target_temp_bits)),
    {
        let mut payload: Vec<u8> = Vec::new();
        payload.push(heater_id);
        push_be32(&mut payload, target_temp_bits);
        proof {
            assert(payload@ =~= seq![heater_id] + be32(target_temp_bits));
        }
        Self::wrap_frame(FRAME_TYPE_SET_TEMP, payload.as_slice())
    }

    fn push_motor_entry(payload: &mut Vec<u8>, motor: &MotorParams)
        ensures
            final(payload)@ == old(payload)@ + motor_entry(*motor),
    {
        let step = parse_pin(motor.step_pin.as_str());
        let dir = parse_pin(motor.dir_pin.as_str());
        let enable = parse_pin(motor.enable_pin.as_str());
        let uart = parse_pin(motor.driver.uart_pin.as_str());
        payload.push(first_byte_or_exec(&motor.axis, 0x58));
        payload.push(port_or_exec(step, 0));
        payload.push(pin_or_exec(step, 0));
        payload.push(port_or_exec(dir, 0));
        payload.push(pin_or_exec(dir, 0));
        payload.push(inverted_byte_exec(dir));
        payload.push(port_or_exec(enable, 0));
        payload.push(pin_or_exec(enable, 0));
        payload.push(inverted_byte_exec(enable));
        payload.push(port_or_exec(uart, 0));
        payload.push(pin_or_exec(uart, 0));
        proof {
            assert(final(payload)@ =~= old(payload)@ + motor_entry(*motor));
        }
    }

    /// The motor frame: subtype 0x01 followed by one entry per motor.
    pub fn build_motor_frame(motors: &[MotorParams]) -> (r: Vec<u8>)
        ensures
            r@ == spec_motor_frame(motors@),
    {
        let mut payload: Vec<u8> = Vec::new();
        payload.push(CONFIG_SUBTYPE_MOTOR);
        let mut i: usize = 0;
        while i < motors.len()
            invariant
                i <= motors.len(),
                payload@ == seq![CONFIG_SUBTYPE_MOTOR] + motor_entries(motors@.subrange(0, i as int)),
            decreases motors.len() - i,
        {
            Self::push_motor_entry(&mut payload, &motors[i]);
            proof {
                let pre = motors@.subrange(0, i as int);
                assert(motors@.subrange(0, i + 1).drop_last() =~= pre);
                assert(motors@.subrange(0, i + 1).last() == motors@[i as int]);
            }
            i = i + 1;
            proof {
                assert(payload@ =~= seq![CONFIG_SUBTYPE_MOTOR] + motor_entries(
                    motors@.subrange(0, i as int),
                ));
            }
        }
        proof {
            assert(motors@.subrange(0, motors@.len() as int) =~= motors@);
        }
        Self::wrap_frame(FRAME_TYPE_CONFIG, payload.as_slice())
    }

    fn limit_pull_code_exec(pull: &String) -> (r: u8)
        ensures
            r == limit_pull_code(pull@),
    {
        let v = chars_of(pull.as_str());
        if crate::common::text::chars_eq(v.as_slice(), &['u', 'p']) {
            1
        } else if crate::common::text::chars_eq(v.as_slice(), &['d', 'o', 'w', 'n']) {
            2
        } else {
            0
        }
    }

    /// The four bytes of one limit switch.
    pub fn limit_axis_to_bytes(axis: &LimitSwitchAxis) -> (r: [u8; 4])
        ensures
            r@ == limit_axis_entry(*axis),
    {
        let pin = parse_pin(axis.pin.as_str());
        let port = port_or_exec(pin, 0xFF);
        let pin_num = pin_or_exec(pin, 0xFF);
        let inverted = inverted_byte_exec(pin);
        let pull = Self::limit_pull_code_exec(&axis.pull);
        let active_high = bool_byte_exec(axis.active_high);
        let r = [(port << 1u8) | inverted, pin_num, (pull << 2u8) | (active_high << 1u8), 0];
        proof {
            assert(r@ =~= limit_axis_entry(*axis));
        }
        r
    }

    /// The limit switch frame: subtype 0x03, three axis entries, homing speed little-endian,
    /// homing directions.
    pub fn build_limit_switch_frame(limit: &LimitSwitchParams) -> (r: Vec<u8>)
        ensures
            r@ == spec_limit_switch_frame(*limit),
    {
        let mut payload: Vec<u8> = Vec::new();
        payload.push(CONFIG_SUBTYPE_LIMIT_SWITCH);
        let ax = Self::limit_axis_to_bytes(&limit.x);
        let ay = Self::limit_axis_to_bytes(&limit.y);
        let az = Self::limit_axis_to_bytes(&limit.z);
        push_all(&mut payload, &ax);
        push_all(&mut payload, &ay);
        push_all(&mut payload, &az);
        push_le16(&mut payload, limit.homing_speed_mm_per_s);
        payload.push(limit.homing_dir_x);
        payload.push(limit.homing_dir_y);
        payload.push(limit.homing_dir_z);
        proof {
            assert(payload@ =~= seq![CONFIG_SUBTYPE_LIMIT_SWITCH] + limit_axis_entry(limit.x)
                + limit_axis_entry(limit.y) + limit_axis_entry(limit.z) + le16(
                limit.homing_speed_mm_per_s,
            ) + seq![limit.homing_dir_x, limit.homing_dir_y, limit.homing_dir_z]);
        }
        Self::wrap_frame(FRAME_TYPE_CONFIG, payload.as_slice())
    }

    /// A thermistor frame with the given subtype and index.
    pub fn build_temp_frame(subtype: u8, index: u8, temp: &TempSensorParams) -> (r: Vec<u8>)
        ensures
            r@ == spec_temp_frame(subtype, index, *temp),
    {
        let mut payload: Vec<u8> = Vec::new();
        payload.push(subtype);
        payload.push(index);
        let adc = parse_pin(temp.adc_pin.as_str());
        payload.push(port_or_exec(adc, 2));
        payload.push(pin_or_exec(adc, 0));
        push_be16(&mut payload, (temp.beta % 65536) as u16);
        push_be32(&mut payload, temp.ntc_resistance_25c);
        push_be32(&mut payload, temp.pullup_resistor);
        push_be32(&mut payload, temp.kp_bits);
        push_be32(&mut payload, temp.ki_bits);
        push_be32(&mut payload, temp.kd_bits);
        push_be16(&mut payload, temp.pid_interval_ms);
        push_be16(&mut payload, i16_to_bits(temp.min_temp));
        push_be16(&mut payload, temp.max_temp);
        proof {
            assert(payload@ =~= temp_payload(subtype, index, *temp));
        }
        Self::wrap_frame(FRAME_TYPE_CONFIG, payload.as_slice())
    }

    /// The bed thermistor frame (subtype 0x20, index 0).
    pub fn build_temp_hotbed_frame(temp: &TempSensorParams) -> (r: Vec<u8>)
        ensures
            r@ == spec_temp_frame(CONFIG_SUBTYPE_TEMP_SENSOR, 0, *temp),
    {
        Self::build_temp_frame(CONFIG_SUBTYPE_TEMP_SENSOR, 0, temp)
    }

    /// The hot-end thermistor frame (subtype 0x20, index 1).
    pub fn build_temp_hotend_frame(temp: &TempSensorParams) -> (r: Vec<u8>)
        ensures
            r@ == spec_temp_frame(CONFIG_SUBTYPE_TEMP_SENSOR, 1, *temp),
    {
        Self::build_temp_frame(CONFIG_SUBTYPE_TEMP_SENSOR, 1, temp)
    }

    /// A heater frame with the given subtype and index.
    pub fn build_heater_frame(subtype: u8, index: u8, heater: &HeaterPin) -> (r: Vec<u8>)
        ensures
            r@ == spec_heater_frame(subtype, index, *heater),
    {
        let mut payload: Vec<u8> = Vec::new();
        payload.push(subtype);
        payload.push(index);
        let pin = parse_pin(heater.pin.as_str());
        payload.push(port_or_exec(pin, 0xFF));
        payload.push(pin_or_exec(pin, 0xFF));
        payload.push(bool_byte_exec(heater.active_high));
        push_be16(&mut payload, heater.pwm_freq_hz);
        payload.push(heater.max_power);
        push_be16(&mut payload, i16_to_bits(heater.safety.max_temp_deviation));
        push_be16(&mut payload, i16_to_bits(heater.safety.min_temp_deviation));
        push_be32(&mut payload, heater.safety.heating_timeout_ms);
        push_be16(&mut payload, heater.safety.sensor_fault_threshold);
        proof {
            assert(payload@ =~= heater_payload(subtype, index, *heater));
        }
        Self::wrap_frame(FRAME_TYPE_CONFIG, payload.as_slice())
    }

    /// The bed heater frame (subtype 0x21, index 0).
    pub fn build_heater_hotbed_frame(heater: &HeaterPin) -> (r: Vec<u8>)
        ensures
            r@ == spec_heater_frame(CONFIG_SUBTYPE_HEATER, 0, *heater),
    {
        Self::build_heater_frame(CONFIG_SUBTYPE_HEATER, 0, heater)
    }

    /// The hot-end heater frame (subtype 0x21, index 1).
    pub fn build_heater_hotend_frame(heater: &HeaterPin) -> (r: Vec<u8>)
        ensures
            r@ == spec_heater_frame(CONFIG_SUBTYPE_HEATER, 1, *heater),
    {
        Self::build_heater_frame(CONFIG_SUBTYPE_HEATER, 1, heater)
    }

    /// A fan frame.
    pub fn build_fan_frame(fan: &FanParams) -> (r: Vec<u8>)
        ensures
            r@ == spec_fan_frame(*fan),
    {
        let mut payload: Vec<u8> = Vec::new();
        payload.push(CONFIG_SUBTYPE_FAN);
        payload.push(first_byte_or_exec(&fan.name, 0x46));
        let pin = parse_pin(fan.pin.as_str());
        payload.push(port_or_exec(pin, 0xFF));
        payload.push(pin_or_exec(pin, 0xFF));
        payload.push(bool_byte_exec(fan.active_high));
        push_le16(&mut payload, fan.pwm_freq_hz);
        proof {
            let p = spec_parse_pin(fan.pin@);
            assert(payload@ =~= seq![
                CONFIG_SUBTYPE_FAN,
                first_byte_or(fan.name@, 0x46u8),
                port_or(p, 0xFF),
                pin_or(p, 0xFF),
                bool_byte(fan.active_high),
            ] + le16(fan.pwm_freq_hz));
        }
        Self::wrap_frame(FRAME_TYPE_CONFIG, payload.as_slice())
    }

    /// The frames of one GPIO output (none when its pin does not parse).
    pub fn build_gpio_output_frames(pin: &OutputPinParams) -> (r: Vec<Vec<u8>>)
        ensures
            frames_view(r@) == spec_gpio_output_frames(*pin),
    {
        let mut frames: Vec<Vec<u8>> = Vec::new();
        let mut buf: Vec<u8> = Vec::new();
        buf.push(CONFIG_SUBTYPE_GPIO_OUTPUT);
        buf.push(0);
        let parsed_pin = match parse_pin(pin.pin.as_str()) {
            Some(p) => p,
            None => {
                proof {
                    assert(frames_view(frames@) =~= Seq::<Seq<u8>>::empty());
                }
                return frames;
            },
        };
        let pin_type = match pin.pin_type {
            OutputPinType::Pwm => GPIO_TYPE_PWM,
            OutputPinType::Digital => GPIO_TYPE_DIGITAL,
        };
        let effective_active_high = parsed_pin.inverted != pin.active_high;
        let name_bytes = pin.name.as_str().as_bytes();
        push_pad16(&mut buf, name_bytes);
        buf.push(parsed_pin.port);
        buf.push(parsed_pin.pin);
        buf.push(pin_type);
        buf.push(bool_byte_exec(effective_active_high));
        push_le16(&mut buf, pin.pwm_freq_hz);
        push_be32(&mut buf, pin.default_value_bits);
        push_be32(&mut buf, pin.shutdown_value_bits);
        push_be32(&mut buf, pin.max_value_bits);
        buf.push(0);
        buf.push(0);
        proof {
            assert(buf@ =~= output_payload(*pin, parsed_pin));
        }
        let frame = Self::wrap_frame(FRAME_TYPE_CONFIG, buf.as_slice());
        frames.push(frame);
        proof {
            assert(frames_view(frames@) =~= spec_gpio_output_frames(*pin));
        }
        frames
    }

    fn input_pull_code_exec(pull: &String) -> (r: u8)
        ensures
            r == input_pull_code(pull@),
    {
        let lower = str_to_lowercase(pull.as_str());
        if str_eq(lower.as_str(), "up") {
            GPIO_PULL_UP
        } else if str_eq(lower.as_str(), "down") {
            GPIO_PULL_DOWN
        } else {
            GPIO_PULL_NONE
        }
    }

    fn report_mode_code_exec(mode: &String) -> (r: u8)
        ensures
            r == report_mode_code(mode@),
    {
        let lower = str_to_lowercase(mode.as_str());
        if str_eq(lower.as_str(), "on_change") {
            GPIO_REPORT_MODE_ON_CHANGE
        } else if str_eq(lower.as_str(), "interval") {
            GPIO_REPORT_MODE_INTERVAL
        } else {
            GPIO_REPORT_MODE_NONE
        }
    }

    fn trigger_code_exec(trigger: &Option<String>) -> (r: u8)
        ensures
            r == trigger_code(
                match *trigger {
                    Some(t) => Some(t@),
                    None => None,
                },
            ),
    {
        match trigger {
            Some(t) => {
                let lower = str_to_lowercase(t.as_str());
                if str_eq(lower.as_str(), "falling")
                {
                    GPIO_TRIGGER_FALLING
                } else if str_eq(lower.as_str(), "both") {
                    GPIO_TRIGGER_BOTH
                } else {
                    GPIO_TRIGGER_RISING
                }
            },
            None => GPIO_TRIGGER_RISING,
        }
    }

    fn event_code_exec(action: &String) -> (r: u8)
        ensures
            r == event_code(action@),
    {
        let lower = str_to_lowercase(action.as_str());
        if str_eq(lower.as_str(), "filament_runout") {
            GPIO_EVENT_FILAMENT_RUNOUT
        } else if str_eq(lower.as_str(), "power_loss") {
            GPIO_EVENT_POWER_LOSS
        } else if str_eq(lower.as_str(), "custom") {
            GPIO_EVENT_CUSTOM
        } else {
            GPIO_EVENT_NONE
        }
    }

    fn input_report_fields_exec(pin: &InputPinParams) -> (r: (u8, u8, u8, u16, u32))
        ensures
            r == input_report_fields(*pin),
    {
        match &pin.report {
            Some(report) => {
                let mode = Self::report_mode_code_exec(&report.mode);
                let trigger = Self::trigger_code_exec(&report.trigger);
                let interval: u16 = match report.interval_ms {
                    Some(n) => (n % 65536) as u16,
                    None => 0,
                };
                let threshold: u32 = match report.threshold_bits {
                    Some(b) => b,
                    None => DEFAULT_REPORT_THRESHOLD_BITS,
                };
                let event = match &pin.event {
                    Some(e) => Self::event_code_exec(&e.action),
                    None => GPIO_EVENT_NONE,
                };
                (event, mode, trigger, interval, threshold)
            },
            None => (GPIO_EVENT_NONE, GPIO_REPORT_MODE_NONE, GPIO_TRIGGER_RISING, 0, 0),
        }
    }

    /// The frames of one GPIO input (none when its pin does not parse).
    #[verifier::rlimit(50)]
    pub fn build_gpio_input_frames(pin: &InputPinParams) -> (r: Vec<Vec<u8>>)
        ensures
            frames_view(r@) == spec_gpio_input_frames(*pin),
    {
        let mut frames: Vec<Vec<u8>> = Vec::new();
        let mut buf: Vec<u8> = Vec::new();
        buf.push(CONFIG_SUBTYPE_GPIO_INPUT);
        buf.push(0);
        let parsed_pin = match parse_pin(pin.pin.as_str()) {
            Some(p) => p,
            None => {
                proof {
                    assert(frames_view(frames@) =~= Seq::<Seq<u8>>::empty());
                }
                return frames;
            },
        };
        let pin_type = match pin.pin_type {
            InputPinType::Digital => GPIO_TYPE_DIGITAL,
            InputPinType::Analog => GPIO_TYPE_ANALOG,
        };
        let pull = Self::input_pull_code_exec(&pin.pull);
        let effective_active_high = parsed_pin.inverted != pin.active_high;
        let name_bytes = pin.name.as_str().as_bytes();
        push_pad16(&mut buf, name_bytes);
        buf.push(parsed_pin.port);
        buf.push(parsed_pin.pin);
        buf.push(pin_type);
        buf.push(pull);
        buf.push(bool_byte_exec(effective_active_high));
        push_le16(&mut buf, pin.debounce_ms);
        let (event_action, report_mode, report_trigger, report_interval_ms, report_threshold) =
            Self::input_report_fields_exec(pin);
        buf.push(event_action);
        buf.push(report_mode);
        buf.push(report_trigger);
        push_le16(&mut buf, report_interval_ms);
        push_be32(&mut buf, report_threshold);
        match &pin.calibration {
            Some(cal) => {
                push_be32(&mut buf, cal.offset_bits);
                push_be32(&mut buf, cal.scale_bits);
                push_be32(&mut buf, cal.min_value_bits);
                push_be32(&mut buf, cal.max_value_bits);
            },
            None => {
                push_be32(&mut buf, 0);
                push_be32(&mut buf, ONE_BITS);
                push_be32(&mut buf, 0);
                push_be32(&mut buf, ONE_BITS);
            },
        }
        buf.push(pin.adc_resolution);
        proof {
            assert(buf@ =~= input_payload(*pin, parsed_pin));
        }
        let frame = Self::wrap_frame(FRAME_TYPE_CONFIG, buf.as_slice());
        frames.push(frame);
        proof {
            assert(frames_view(frames@) =~= spec_gpio_input_frames(*pin));
        }
        frames
    }

    fn push_frames(frames: &mut Vec<Vec<u8>>, more: Vec<Vec<u8>>)
        ensures
            frames_view(final(frames)@) == frames_view(old(frames)@) + frames_view(more@),
    {
        let mut more = more;
        let ghost m = more@;
        frames.append(&mut more);
        proof {
            assert(frames_view(final(frames)@) =~= frames_view(old(frames)@) + frames_view(m));
        }
    }

    fn push_frame(frames: &mut Vec<Vec<u8>>, f: Vec<u8>)
        ensures
            frames_view(final(frames)@) == frames_view(old(frames)@).push(f@),
    {
        let ghost fv = f@;
        frames.push(f);
        proof {
            assert(frames_view(final(frames)@) =~= frames_view(old(frames)@).push(fv));
        }
    }

    fn fan_section(fans: &[FanParams]) -> (r: Vec<Vec<u8>>)
        ensures
            frames_view(r@) == fan_frames(fans@),
    {
        let mut frames: Vec<Vec<u8>> = Vec::new();
        let mut i: usize = 0;
        proof {
            assert(frames_view(frames@) =~= fan_frames(fans@.subrange(0, 0)));
        }
        while i < fans.len()
            invariant
                i <= fans.len(),
                frames_view(frames@) == fan_frames(fans@.subrange(0, i as int)),
            decreases fans.len() - i,
        {
            let fan = &fans[i];
            let ghost before = frames_view(frames@);
            if fan.pin.as_str().unicode_len() > 0 {
                Self::push_frame(&mut frames, Self::build_fan_frame(fan));
            }
            proof {
                let pre = fans@.subrange(0, i as int);
                assert(fans@.subrange(0, i + 1).drop_last() =~= pre);
                assert(fans@.subrange(0, i + 1).last() == fans@[i as int]);
                if fan.pin@.len() > 0 {
                    assert(frames_view(frames@) =~= before + seq![spec_fan_frame(*fan)]);
                } else {
                    assert(frames_view(frames@) =~= before + Seq::<Seq<u8>>::empty());
                }
            }
            i = i + 1;
        }
        proof {
            assert(fans@.subrange(0, fans@.len() as int) =~= fans@);
        }
        frames
    }

    fn output_section(outs: &[OutputPinParams]) -> (r: Vec<Vec<u8>>)
        ensures
            frames_view(r@) == output_frames(outs@),
    {
        let mut frames: Vec<Vec<u8>> = Vec::new();
        let mut i: usize = 0;
        proof {
            assert(frames_view(frames@) =~= output_frames(outs@.subrange(0, 0)));
        }
        while i < outs.len()
            invariant
                i <= outs.len(),
                frames_view(frames@) == output_frames(outs@.subrange(0, i as int)),
            decreases outs.len() - i,
        {
            let out = &outs[i];
            let ghost before = frames_view(frames@);
            if out.pin.as_str().unicode_len() > 0 {
                Self::push_frames(&mut frames, Self::build_gpio_output_frames(out));
            }
            proof {
                let pre = outs@.subrange(0, i as int);
                assert(outs@.subrange(0, i + 1).drop_last() =~= pre);
                assert(outs@.subrange(0, i + 1).last() == outs@[i as int]);
                if out.pin@.len() == 0 {
                    assert(frames_view(frames@) =~= before + Seq::<Seq<u8>>::empty());
                }
            }
            i = i + 1;
        }
        proof {
            assert(outs@.subrange(0, outs@.len() as int) =~= outs@);
        }
        frames
    }

    fn input_section(ins: &[InputPinParams]) -> (r: Vec<Vec<u8>>)
        ensures
            frames_view(r@) == input_frames(ins@),
    {
        let mut frames: Vec<Vec<u8>> = Vec::new();
        let mut i: usize = 0;
        proof {
            assert(frames_view(frames@) =~= input_frames(ins@.subrange(0, 0)));
        }
        while i < ins.len()
            invariant
                i <= ins.len(),
                frames_view(frames@) == input_frames(ins@.subrange(0, i as int)),
            decreases ins.len() - i,
        {
            let inp = &ins[i];
            let ghost before = frames_view(frames@);
            if inp.pin.as_str().unicode_len() > 0 {
                Self::push_frames(&mut frames, Self::build_gpio_input_frames(inp));
            }
            proof {
                let pre = ins@.subrange(0, i as int);
                assert(ins@.subrange(0, i + 1).drop_last() =~= pre);
                assert(ins@.subrange(0, i + 1).last() == ins@[i as int]);
                if inp.pin@.len() == 0 {
                    assert(frames_view(frames@) =~= before + Seq::<Seq<u8>>::empty());
                }
            }
            i = i + 1;
        }
        proof {
            assert(ins@.subrange(0, ins@.len() as int) =~= ins@);
        }
        frames
    }

    fn frame_if(b: bool, f: Vec<u8>) -> (r: Vec<Vec<u8>>)
        ensures
            frames_view(r@) == one_frame_if(b, f@),
    {
        let mut frames: Vec<Vec<u8>> = Vec::new();
        let ghost fv = f@;
        if b {
            Self::push_frame(&mut frames, f);
        }
        proof {
            assert(frames_view(frames@) =~= one_frame_if(b, fv));
        }
        frames
    }

    /// All configuration frames of a printer configuration, in sending order.
    pub fn build_config_frames(config: &PrinterJsonConfig) -> (r: Vec<Vec<u8>>)
        ensures
            frames_view(r@) == spec_config_frames(*config),
    {
        let ghost c = *config;
        let pa0_chars = ['P', 'A', '0'];
        let lx = chars_of(config.limit_switch.x.pin.as_str());
        let ly = chars_of(config.limit_switch.y.pin.as_str());
        let lz = chars_of(config.limit_switch.z.pin.as_str());
        let need_limit = !crate::common::text::chars_eq(lx.as_slice(), &pa0_chars)
            || !crate::common::text::chars_eq(ly.as_slice(), &pa0_chars)
            || !crate::common::text::chars_eq(lz.as_slice(), &pa0_chars);
        proof {
            assert(pa0_chars@ =~= pa0());
        }
        let mut frames = Self::frame_if(
            config.motor.len() > 0,
            if config.motor.len() > 0 {
                Self::build_motor_frame(config.motor.as_slice())
            } else {
                Vec::new()
            },
        );
        proof {
            if c.motor@.len() == 0 {
                assert(frames_view(frames@) =~= one_frame_if(false, spec_motor_frame(c.motor@)));
            }
        }
        Self::push_frames(
            &mut frames,
            Self::frame_if(need_limit, Self::build_limit_switch_frame(&config.limit_switch)),
        );
        Self::push_frames(
            &mut frames,
            Self::frame_if(
                config.temperature.hotbed.adc_pin.as_str().unicode_len() > 0,
                Self::build_temp_hotbed_frame(&config.temperature.hotbed),
            ),
        );
        Self::push_frames(
            &mut frames,
            Self::frame_if(
                config.temperature.hotend.adc_pin.as_str().unicode_len() > 0,
                Self::build_temp_hotend_frame(&config.temperature.hotend),
            ),
        );
        Self::push_frames(
            &mut frames,
            Self::frame_if(
                config.heater.hotbed.pin.as_str().unicode_len() > 0,
                Self::build_heater_hotbed_frame(&config.heater.hotbed),
            ),
        );
        Self::push_frames(
            &mut frames,
            Self::frame_if(
                config.heater.hotend.pin.as_str().unicode_len() > 0,
                Self::build_heater_hotend_frame(&config.heater.hotend),
            ),
        );
        Self::push_frames(&mut frames, Self::fan_section(config.fan.as_slice()));
        Self::push_frames(&mut frames, Self::output_section(config.gpio.output.as_slice()));
        Self::push_frames(&mut frames, Self::input_section(config.gpio.input.as_slice()));
        frames
    }
}

/// All configuration frames of a printer configuration.
pub fn create_config_frames(config: &PrinterJsonConfig) -> (r: Vec<Vec<u8>>)
    ensures
        frames_view(r@) == spec_config_frames(*config),
{
    ConfigFrameBuilder::build_config_frames(config)
}


// ---------------------------------------------------------------------------
// Validation
// ---------------------------------------------------------------------------

/// The first pin problem of a motor: the message part naming the field, and the pin text.
/// Step, direction and enable pins must parse; the driver UART pin must parse when it is set.
pub open spec fn motor_pin_problem(m: MotorParams) -> Option<(Seq<char>, Seq<char>)> {
    if spec_parse_pin(m.step_pin@) is None {
        Some((" has invalid step_pin: "@, m.step_pin@))
    } else if spec_parse_pin(m.dir_pin@) is None {
        Some((" has invalid dir_pin: "@, m.dir_pin@))
    } else if spec_parse_pin(m.enable_pin@) is None {
        Some((" has invalid enable_pin: "@, m.enable_pin@))
    } else if m.driver.uart_pin@.len() > 0 && spec_parse_pin(m.driver.uart_pin@) is None {
        Some((" has invalid driver.uart_pin: "@, m.driver.uart_pin@))
    } else {
        None
    }
}

/// Validation of the motors from index `i` on: the message of the first motor with a problem.
pub open spec fn validate_motors_from(ms: Seq<MotorParams>, i: nat) -> Result<(), Seq<char>>
    decreases ms.len() - i,
{
    if i >= ms.len() {
        Ok(())
    } else {
        match motor_pin_problem(ms[i as int]) {
            Some((field, pin)) => Err("Motor "@ + decimal(i) + field + pin),
            None => validate_motors_from(ms, i + 1),
        }
    }
}

/// A configuration is valid when it has at least one motor and every motor's pins parse.
pub open spec fn spec_validate_config(c: PrinterJsonConfig) -> Result<(), Seq<char>> {
    if c.motor@.len() == 0 {
        Err("At least one motor must be configured"@)
    } else {
        validate_motors_from(c.motor@, 0)
    }
}

fn motor_problem_exec(m: &MotorParams) -> (r: Option<(&'static str, &String)>)
    ensures
        match (r, motor_pin_problem(*m)) {
            (Some((f, p)), Some((sf, sp))) => f@ == sf && p@ == sp,
            (None, None) => true,
            _ => false,
        },
{
    if parse_pin(m.step_pin.as_str()).is_none() {
        Some((" has invalid step_pin: ", &m.step_pin))
    } else if parse_pin(m.dir_pin.as_str()).is_none() {
        Some((" has invalid dir_pin: ", &m.dir_pin))
    } else if parse_pin(m.enable_pin.as_str()).is_none() {
        Some((" has invalid enable_pin: ", &m.enable_pin))
    } else if m.driver.uart_pin.as_str().unicode_len() > 0 && parse_pin(
        m.driver.uart_pin.as_str(),
    ).is_none() {
        Some((" has invalid driver.uart_pin: ", &m.driver.uart_pin))
    } else {
        None
    }
}

/// Checks that a configuration has at least one motor and that every motor's pins parse.
pub fn validate_config(config: &PrinterJsonConfig) -> (r: Result<(), String>)
    ensures
        match r {
            Ok(()) => spec_validate_config(*config) == Ok::<(), Seq<char>>(()),
            Err(e) => spec_validate_config(*config) == Err::<(), Seq<char>>(e@),
        },
{
    if config.motor.len() == 0 {
        return Err(String::from_str("At least one motor must be configured"));
    }
    let mut i: usize = 0;
    while i < config.motor.len()
        invariant
            i <= config.motor.len(),
            config.motor@.len() > 0,
            spec_validate_config(*config) == validate_motors_from(config.motor@, i as nat),
        decreases config.motor.len() - i,
    {
        match motor_problem_exec(&config.motor[i]) {
            Some((field, pin)) => {
                let mut msg = String::from_str("Motor ");
                push_decimal(&mut msg, i as u64);
                append_str(&mut msg, field);
                append_str(&mut msg, pin.as_str());
                return Err(msg);
            },
            None => {},
        }
        i = i + 1;
    }
    Ok(())
}

/// The thermistor payload carries its fields at fixed places: subtype, index, ADC port and
/// pin, beta (two bytes), the 25 °C resistance, the pull-up, then the PID gains Kp, Ki and Kd
/// in that order (four big-endian bytes each), the PID interval, and the minimum and maximum
/// temperature; 32 bytes in all. In the frame the payload follows the start byte, the length
/// and the frame type, so Kp, Ki and Kd sit at bytes 17, 21 and 25.
pub proof fn lemma_temp_frame_fields(subtype: u8, index: u8, t: TempSensorParams)
    ensures
        temp_payload(subtype, index, t).len() == 32,
        temp_payload(subtype, index, t)[0] == subtype,
        temp_payload(subtype, index, t)[1] == index,
        temp_payload(subtype, index, t).subrange(4, 6) == be16((t.beta % 65536) as u16),
        temp_payload(subtype, index, t).subrange(6, 10) == be32(t.ntc_resistance_25c),
        temp_payload(subtype, index, t).subrange(10, 14) == be32(t.pullup_resistor),
        temp_payload(subtype, index, t).subrange(14, 18) == be32(t.kp_bits),
        temp_payload(subtype, index, t).subrange(18, 22) == be32(t.ki_bits),
        temp_payload(subtype, index, t).subrange(22, 26) == be32(t.kd_bits),
        temp_payload(subtype, index, t).subrange(26, 28) == be16(t.pid_interval_ms),
        temp_payload(subtype, index, t).subrange(28, 30) == be16(i16_bits(t.min_temp)),
        temp_payload(subtype, index, t).subrange(30, 32) == be16(t.max_temp),
        spec_temp_frame(subtype, index, t).len() == 37,
        spec_temp_frame(subtype, index, t)[0] == FRAME_SOF,
        spec_temp_frame(subtype, index, t)[2] == FRAME_TYPE_CONFIG,
        spec_temp_frame(subtype, index, t).subrange(3, 35) == temp_payload(subtype, index, t),
        spec_temp_frame(subtype, index, t).subrange(17, 21) == be32(t.kp_bits),
        spec_temp_frame(subtype, index, t).subrange(21, 25) == be32(t.ki_bits),
        spec_temp_frame(subtype, index, t).subrange(25, 29) == be32(t.kd_bits),
        spec_temp_frame(subtype, index, t)[36] == FRAME_EOF,
{
    let p = temp_payload(subtype, index, t);
    let adc = spec_parse_pin(t.adc_pin@);
    let head = seq![subtype, index, port_or(adc, 2), pin_or(adc, 0)];
    let parts = seq![
        head,
        be16((t.beta % 65536) as u16),
        be32(t.ntc_resistance_25c),
        be32(t.pullup_resistor),
        be32(t.kp_bits),
        be32(t.ki_bits),
        be32(t.kd_bits),
        be16(t.pid_interval_ms),
        be16(i16_bits(t.min_temp)),
        be16(t.max_temp),
    ];
    assert(p.len() == 32);
    assert(p.subrange(4, 6) =~= parts[1]);
    assert(p.subrange(6, 10) =~= parts[2]);
    assert(p.subrange(10, 14) =~= parts[3]);
    assert(p.subrange(14, 18) =~= parts[4]);
    assert(p.subrange(18, 22) =~= parts[5]);
    assert(p.subrange(22, 26) =~= parts[6]);
    assert(p.subrange(26, 28) =~= parts[7]);
    assert(p.subrange(28, 30) =~= parts[8]);
    assert(p.subrange(30, 32) =~= parts[9]);
    let f = spec_temp_frame(subtype, index, t);
    let body = seq![FRAME_SOF, frame_len_byte(p.len()), FRAME_TYPE_CONFIG] + p;
    assert(f == body.push(crc8_spec(body.drop_first())).push(FRAME_EOF));
    assert(f.len() == 37);
    assert(f.subrange(3, 35) =~= p);
    assert(f.subrange(17, 21) =~= p.subrange(14, 18));
    assert(f.subrange(21, 25) =~= p.subrange(18, 22));
    assert(f.subrange(25, 29) =~= p.subrange(22, 26));
}

} // verus!
