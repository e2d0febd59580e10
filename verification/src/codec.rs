//! Decoding of raw CAN frames into typed telemetry messages.
//!
//! The identifier space is split into bands: exact-match battery identifiers
//! (0x100-0x108) and GNSS identifiers (0x200-0x204) carry little-endian
//! fields; a range band starting at 0x700 carries solar charge-controller
//! (MPPT) messages; a band of exact-match identifiers up to 0x1B09 carries
//! motor-controller and throttle messages with big-endian fields. The two
//! endiannesses reflect two different upstream subsystems sharing one bus and
//! are reproduced bit for bit.
//!
//! Scaled quantities keep their raw wire integers (the scale is documented on
//! each field); IEEE-754 quantities keep their bit patterns, in fields whose
//! names end in `_bits`.

use vstd::prelude::*;

use crate::can_frame::CanFrame;

verus! {

/// A decoded telemetry message: one of five top-level subsystems.
#[derive(Clone, Copy, Debug, PartialEq, Eq)]
pub enum EoiCanData {
    EoiBattery(EoiBattery),
    Vesc(VescData),
    Throttle(ThrottleData),
    Mppt(MpptData),
    Gnss(GnssData),
}

/// GNSS receiver messages.
#[derive(Clone, Copy, Debug, PartialEq, Eq)]
pub enum GnssData {
    GnssStatus(GnssStatus),
    /// Speed over ground in km/h and heading in degrees, both IEEE-754
    /// single-precision bit patterns.
    GnssSpeedAndHeading(u32, u32),
    /// Latitude in degrees, an IEEE-754 double-precision bit pattern.
    GnssLatitude(u64),
    /// Longitude in degrees, an IEEE-754 double-precision bit pattern.
    GnssLongitude(u64),
    GnssDateTime(GnssDateTime),
}

/// Fix state and satellite counts of the GNSS receiver.
#[derive(Clone, Copy, Debug, PartialEq, Eq)]
pub struct GnssStatus {
    pub fix: u8,
    pub sats: u8,
    pub sats_used: u8,
}

/// Civil date and time reported by the GNSS receiver.
#[derive(Clone, Copy, Debug, PartialEq, Eq)]
pub struct GnssDateTime {
    pub year: u16,
    pub month: u8,
    pub day: u8,
    pub hours: u8,
    pub minutes: u8,
    pub seconds: u8,
}

/// Throttle lever messages.
#[derive(Clone, Copy, Debug, PartialEq, Eq)]
pub enum ThrottleData {
    /// Requested duty cycle in thousandths.
    ToVescDutyCycle(i32),
    /// Requested current in thousandths.
    ToVescCurrent(i32),
    /// Requested speed in thousandths of an RPM.
    ToVescRpm(i32),
    Status(ThrottleStatus),
    Config(ThrottleConfig),
}

/// Live throttle reading with its packed error flags.
#[derive(Clone, Copy, Debug, PartialEq, Eq)]
pub struct ThrottleStatus {
    /// Raw lever position; 512 raw counts are 100 percent.
    pub value: i16,
    pub raw_angle: i16,
    pub raw_deadmen: i16,
    pub gain: u8,
    pub error_any: bool,
    pub error_twi: u8,
    pub error_no_eeprom: bool,
    pub error_gain_clipping: bool,
    pub error_gain_invalid: bool,
    pub error_deadman_missing: bool,
    pub error_impedance_high: bool,
}

/// Throttle configuration record.
#[derive(Clone, Copy, Debug, PartialEq, Eq)]
pub struct ThrottleConfig {
    pub control_type: ThrottleControlType,
    pub lever_forward: i16,
    pub lever_backward: i16,
}

/// How the throttle commands the motor controller; wire values outside the
/// known range map to `Unknown`, never to a decode failure.
#[derive(Clone, Copy, Debug, PartialEq, Eq, Default)]
pub enum ThrottleControlType {
    DutyCycle,
    FilteredDutyCycle,
    Current,
    Rpm,
    CurrentRelative,
    #[default]
    Unknown,
}

/// A message from one MPPT solar charge controller.
#[derive(Clone, Copy, Debug, PartialEq, Eq)]
pub struct MpptData {
    /// Controller address, 0-7.
    pub mppt_id: u8,
    pub info: MpptInfo,
}

/// The per-controller message kinds.
#[derive(Clone, Copy, Debug, PartialEq, Eq)]
pub enum MpptInfo {
    MpptChannelPower(MpptChannelPower),
    MpptChannelState(MpptChannelState),
    MpptPower(MpptPower),
    MpptStatus(MpptStatus),
}

/// Input power of one panel channel.
#[derive(Clone, Copy, Debug, PartialEq, Eq)]
pub struct MpptChannelPower {
    /// Channel on the controller, 0-3.
    pub mppt_channel: u8,
    /// Input voltage, an IEEE-754 single-precision bit pattern.
    pub voltage_in_bits: u32,
    /// Input current, an IEEE-754 single-precision bit pattern.
    pub current_in_bits: u32,
}

/// Tracking state of one panel channel.
#[derive(Clone, Copy, Debug, PartialEq, Eq)]
pub struct MpptChannelState {
    /// Channel on the controller, 0-3.
    pub mppt_channel: u8,
    pub duty_cycle: u16,
    pub algorithm: u8,
    pub algorithm_state: u8,
    pub channel_active: bool,
}

/// Aggregate output power of one controller.
#[derive(Clone, Copy, Debug, PartialEq, Eq)]
pub struct MpptPower {
    /// Output voltage, an IEEE-754 single-precision bit pattern.
    pub voltage_out_bits: u32,
    /// Output current, an IEEE-754 single-precision bit pattern.
    pub current_out_bits: u32,
}

/// Temperature and switch state of one controller.
#[derive(Clone, Copy, Debug, PartialEq, Eq)]
pub struct MpptStatus {
    /// Voltage behind the output switch, an IEEE-754 single-precision bit
    /// pattern.
    pub voltage_out_switch_bits: u32,
    pub temperature: i16,
    pub state: u8,
    pub pwm_enabled: bool,
    pub switch_on: bool,
}

/// Battery management unit messages.
#[derive(Clone, Copy, Debug, PartialEq, Eq)]
pub enum EoiBattery {
    PackAndPerriCurrent(PackAndPerriCurrent),
    ChargeAndDischargeCurrent(ChargeAndDischargeCurrent),
    SocErrorFlagsAndBalancing(SocErrorFlagsAndBalancing),
    CellVoltages1_4(FourCellVoltages),
    CellVoltages5_8(FourCellVoltages),
    CellVoltages9_12(FourCellVoltages),
    CellVoltages13_14PackAndStack(CellVoltages13_14PackAndStack),
    TemperaturesAndStates(TemperaturesAndStates),
    BatteryUptime(BatteryUptime),
}

/// Pack current and peripheral current, IEEE-754 single-precision bit
/// patterns.
#[derive(Clone, Copy, Debug, PartialEq, Eq)]
pub struct PackAndPerriCurrent {
    pub pack_current_bits: u32,
    pub perri_current_bits: u32,
}

/// Charge and discharge current, IEEE-754 single-precision bit patterns.
///
/// The wire carries the discharge current with the opposite sign; decoding
/// negates it, which for an IEEE-754 word is flipping the sign bit.
#[derive(Clone, Copy, Debug, PartialEq, Eq)]
pub struct ChargeAndDischargeCurrent {
    pub discharge_current_bits: u32,
    pub charge_current_bits: u32,
}

/// State of charge, error flags and balancing status.
#[derive(Clone, Copy, Debug, PartialEq, Eq)]
pub struct SocErrorFlagsAndBalancing {
    /// State of charge in hundredths of a percent.
    pub state_of_charge: u16,
    pub error_flags: u32,
    pub balancing_status: u16,
}

/// Four consecutive cell voltages in millivolts.
#[derive(Clone, Copy, Debug, PartialEq, Eq)]
pub struct FourCellVoltages {
    pub cell_voltage: [u16; 4],
}

/// The last two cell voltages plus pack and stack voltage, in millivolts.
#[derive(Clone, Copy, Debug, PartialEq, Eq)]
pub struct CellVoltages13_14PackAndStack {
    pub cell_voltage: [u16; 2],
    pub pack_voltage: u16,
    pub stack_voltage: u16,
}

/// Temperatures in degrees Celsius and the three state bytes.
#[derive(Clone, Copy, Debug, PartialEq, Eq)]
pub struct TemperaturesAndStates {
    pub temperatures: [i8; 4],
    pub ic_temperature: i8,
    pub battery_state: u8,
    pub charge_state: u8,
    pub discharge_state: u8,
}

/// Time since the battery management unit started, in milliseconds.
#[derive(Clone, Copy, Debug, PartialEq, Eq)]
pub struct BatteryUptime {
    pub uptime_ms: u32,
}

/// Motor controller (VESC) status messages, big-endian on the wire.
#[derive(Clone, Copy, Debug, PartialEq, Eq)]
pub enum VescData {
    StatusMessage1 {
        rpm: i32,
        /// Tenths of an ampere.
        total_current: i16,
        /// Tenths of a percent.
        duty_cycle: i16,
    },
    StatusMessage2 {
        /// Ten-thousandths of an ampere-hour.
        amp_hours_used: u32,
        /// Ten-thousandths of an ampere-hour.
        amp_hours_generated: u32,
    },
    StatusMessage3 {
        /// Ten-thousandths of a watt-hour.
        watt_hours_used: u32,
        /// Ten-thousandths of a watt-hour.
        watt_hours_generated: u32,
    },
    StatusMessage4 {
        /// Tenths of a degree Celsius.
        fet_temp: i16,
        /// Tenths of a degree Celsius.
        motor_temp: i16,
        /// Tenths of an ampere.
        total_input_current: i16,
        /// Fiftieths of a unit.
        current_pid_position: i16,
    },
    StatusMessage5 {
        /// Tenths of a volt.
        input_voltage: i16,
        tachometer: i32,
    },
}

/// The little-endian 16-bit word at offset `i`.
pub open spec fn spec_le_u16(b: Seq<u8>, i: int) -> u16 {
    (b[i] + 0x100 * b[i + 1]) as u16
}

/// The big-endian 16-bit word at offset `i`.
pub open spec fn spec_be_u16(b: Seq<u8>, i: int) -> u16 {
    (0x100 * b[i] + b[i + 1]) as u16
}

/// The little-endian 32-bit word at offset `i`.
pub open spec fn spec_le_u32(b: Seq<u8>, i: int) -> u32 {
    (b[i] + 0x100 * b[i + 1] + 0x1_0000 * b[i + 2] + 0x100_0000 * b[i + 3]) as u32
}

/// The big-endian 32-bit word at offset `i`.
pub open spec fn spec_be_u32(b: Seq<u8>, i: int) -> u32 {
    (0x100_0000 * b[i] + 0x1_0000 * b[i + 1] + 0x100 * b[i + 2] + b[i + 3]) as u32
}

/// The little-endian 64-bit word at offset `i`.
pub open spec fn spec_le_u64(b: Seq<u8>, i: int) -> u64 {
    (spec_le_u32(b, i) + 0x1_0000_0000 * spec_le_u32(b, i + 4)) as u64
}

/// The 16-bit word reinterpreted as a two's-complement signed number.
pub open spec fn spec_i16_of(x: u16) -> i16 {
    if x < 0x8000 {
        x as i16
    } else {
        (x - 0x1_0000) as i16
    }
}

/// The 32-bit word reinterpreted as a two's-complement signed number.
pub open spec fn spec_i32_of(x: u32) -> i32 {
    if x < 0x8000_0000 {
        x as i32
    } else {
        (x - 0x1_0000_0000) as i32
    }
}

/// Reinterpret a 16-bit word as a two's-complement signed number.
fn u16_to_i16(x: u16) -> (r: i16)
    ensures
        r == spec_i16_of(x),
{
    proof {
        assert(x < 0x8000 ==> x as i16 == x) by (bit_vector);
        assert(x >= 0x8000 ==> x as i16 == x - 0x1_0000) by (bit_vector);
    }
    #[verifier::truncate] (x as i16)
}

/// Reinterpret a 32-bit word as a two's-complement signed number.
fn u32_to_i32(x: u32) -> (r: i32)
    ensures
        r == spec_i32_of(x),
{
    proof {
        assert(x < 0x8000_0000 ==> x as i32 == x) by (bit_vector);
        assert(x >= 0x8000_0000 ==> x as i32 == x - 0x1_0000_0000) by (bit_vector);
    }
    #[verifier::truncate] (x as i32)
}

/// The little-endian 16-bit word of a two-byte slice, or `None` for any
/// other length.
pub fn bytes_le_to_u16(bytes: &[u8]) -> (r: Option<u16>)
    ensures
        r == if bytes@.len() == 2 {
            Some(spec_le_u16(bytes@, 0))
        } else {
            None::<u16>
        },
{
    if bytes.len() == 2 {
        let b0 = *vstd::slice::slice_index_get(bytes, 0);
        let b1 = *vstd::slice::slice_index_get(bytes, 1);
        Some(b0 as u16 + 0x100 * b1 as u16)
    } else {
        None
    }
}

/// The big-endian 16-bit word of a two-byte slice as a signed number, or
/// `None` for any other length.
pub fn bytes_be_to_i16(bytes: &[u8]) -> (r: Option<i16>)
    ensures
        r == if bytes@.len() == 2 {
            Some(spec_i16_of(spec_be_u16(bytes@, 0)))
        } else {
            None::<i16>
        },
{
    if bytes.len() == 2 {
        let b0 = *vstd::slice::slice_index_get(bytes, 0);
        let b1 = *vstd::slice::slice_index_get(bytes, 1);
        Some(u16_to_i16(0x100 * b0 as u16 + b1 as u16))
    } else {
        None
    }
}

/// The little-endian 16-bit word of a two-byte slice as a signed number, or
/// `None` for any other length.
pub fn bytes_le_to_i16(bytes: &[u8]) -> (r: Option<i16>)
    ensures
        r == if bytes@.len() == 2 {
            Some(spec_i16_of(spec_le_u16(bytes@, 0)))
        } else {
            None::<i16>
        },
{
    if bytes.len() == 2 {
        let b0 = *vstd::slice::slice_index_get(bytes, 0);
        let b1 = *vstd::slice::slice_index_get(bytes, 1);
        Some(u16_to_i16(b0 as u16 + 0x100 * b1 as u16))
    } else {
        None
    }
}

/// The little-endian 32-bit word of a four-byte slice, or `None` for any
/// other length.
pub fn bytes_le_to_u32(bytes: &[u8]) -> (r: Option<u32>)
    ensures
        r == if bytes@.len() == 4 {
            Some(spec_le_u32(bytes@, 0))
        } else {
            None::<u32>
        },
{
    if bytes.len() == 4 {
        let b0 = *vstd::slice::slice_index_get(bytes, 0);
        let b1 = *vstd::slice::slice_index_get(bytes, 1);
        let b2 = *vstd::slice::slice_index_get(bytes, 2);
        let b3 = *vstd::slice::slice_index_get(bytes, 3);
        Some(b0 as u32 + 0x100 * b1 as u32 + 0x1_0000 * b2 as u32 + 0x100_0000 * b3 as u32)
    } else {
        None
    }
}

/// The big-endian 32-bit word of a four-byte slice, or `None` for any other
/// length.
pub fn bytes_be_to_u32(bytes: &[u8]) -> (r: Option<u32>)
    ensures
        r == if bytes@.len() == 4 {
            Some(spec_be_u32(bytes@, 0))
        } else {
            None::<u32>
        },
{
    if bytes.len() == 4 {
        let b0 = *vstd::slice::slice_index_get(bytes, 0);
        let b1 = *vstd::slice::slice_index_get(bytes, 1);
        let b2 = *vstd::slice::slice_index_get(bytes, 2);
        let b3 = *vstd::slice::slice_index_get(bytes, 3);
        Some(0x100_0000 * b0 as u32 + 0x1_0000 * b1 as u32 + 0x100 * b2 as u32 + b3 as u32)
    } else {
        None
    }
}

/// The big-endian 32-bit word of a four-byte slice as a signed number, or
/// `None` for any other length.
pub fn bytes_be_to_i32(bytes: &[u8]) -> (r: Option<i32>)
    ensures
        r == if bytes@.len() == 4 {
            Some(spec_i32_of(spec_be_u32(bytes@, 0)))
        } else {
            None::<i32>
        },
{
    match bytes_be_to_u32(bytes) {
        Some(x) => Some(u32_to_i32(x)),
        None => None,
    }
}

/// The little-endian 16-bit word at offset `i` of the payload.
fn le_u16_at(data: &Vec<u8>, i: usize) -> (r: u16)
    requires
        i + 2 <= data.len(),
    ensures
        r == spec_le_u16(data@, i as int),
{
    data[i] as u16 + 0x100 * data[i + 1] as u16
}

/// The big-endian 16-bit word at offset `i` of the payload.
fn be_u16_at(data: &Vec<u8>, i: usize) -> (r: u16)
    requires
        i + 2 <= data.len(),
    ensures
        r == spec_be_u16(data@, i as int),
{
    0x100 * data[i] as u16 + data[i + 1] as u16
}

/// The big-endian signed 16-bit number at offset `i` of the payload.
fn be_i16_at(data: &Vec<u8>, i: usize) -> (r: i16)
    requires
        i + 2 <= data.len(),
    ensures
        r == spec_i16_of(spec_be_u16(data@, i as int)),
{
    u16_to_i16(be_u16_at(data, i))
}

/// The little-endian signed 16-bit number at offset `i` of the payload.
fn le_i16_at(data: &Vec<u8>, i: usize) -> (r: i16)
    requires
        i + 2 <= data.len(),
    ensures
        r == spec_i16_of(spec_le_u16(data@, i as int)),
{
    u16_to_i16(le_u16_at(data, i))
}

/// The little-endian 32-bit word at offset `i` of the payload.
fn le_u32_at(data: &Vec<u8>, i: usize) -> (r: u32)
    requires
        i + 4 <= data.len(),
    ensures
        r == spec_le_u32(data@, i as int),
{
    data[i] as u32 + 0x100 * data[i + 1] as u32 + 0x1_0000 * data[i + 2] as u32 + 0x100_0000
        * data[i + 3] as u32
}

/// The big-endian 32-bit word at offset `i` of the payload.
fn be_u32_at(data: &Vec<u8>, i: usize) -> (r: u32)
    requires
        i + 4 <= data.len(),
    ensures
        r == spec_be_u32(data@, i as int),
{
    0x100_0000 * data[i] as u32 + 0x1_0000 * data[i + 1] as u32 + 0x100 * data[i + 2] as u32
        + data[i + 3] as u32
}

/// The big-endian signed 32-bit number at offset `i` of the payload.
fn be_i32_at(data: &Vec<u8>, i: usize) -> (r: i32)
    requires
        i + 4 <= data.len(),
    ensures
        r == spec_i32_of(spec_be_u32(data@, i as int)),
{
    u32_to_i32(be_u32_at(data, i))
}

/// The little-endian 64-bit word at offset `i` of the payload.
fn le_u64_at(data: &Vec<u8>, i: usize) -> (r: u64)
    requires
        i + 8 <= data.len(),
    ensures
        r == spec_le_u64(data@, i as int),
{
    le_u32_at(data, i) as u64 + 0x1_0000_0000 * le_u32_at(data, i + 4) as u64
}

/// Controller address encoded in an identifier of the MPPT band.
pub open spec fn spec_mppt_id(id: u32) -> u8 {
    ((id / 16) % 8) as u8
}

/// Message kind encoded in an identifier of the MPPT band.
pub open spec fn spec_mppt_info_field(id: u32) -> u8 {
    (id % 16) as u8
}

/// First identifier of the MPPT band.
pub const MPPT_BASE_ADDRESS: u32 = 0x700;

/// First identifier past the MPPT band: 8 controller addresses of 16 info
/// fields each, the last one excluded.
pub const MPPT_STOP_ADDRESS: u32 = 0x77F;

/// What an identifier in the MPPT band decodes to: even info fields 0-6 are
/// per-channel input power, odd info fields 1-7 are per-channel tracking
/// state, field 8 is aggregate output power, field 9 is temperature and
/// switch state, every other field is unrecognized.
pub open spec fn spec_parse_mppt(id: u32, b: Seq<u8>) -> Option<EoiCanData> {
    let mppt_id = spec_mppt_id(id);
    let info_field = spec_mppt_info_field(id);
    let channel = (info_field / 2) as u8;
    if info_field == 0 || info_field == 2 || info_field == 4 || info_field == 6 {
        if b.len() >= 8 {
            Some(
                EoiCanData::Mppt(
                    MpptData {
                        mppt_id,
                        info: MpptInfo::MpptChannelPower(
                            MpptChannelPower {
                                mppt_channel: channel,
                                voltage_in_bits: spec_le_u32(b, 0),
                                current_in_bits: spec_le_u32(b, 4),
                            },
                        ),
                    },
                ),
            )
        } else {
            None
        }
    } else if info_field == 1 || info_field == 3 || info_field == 5 || info_field == 7 {
        if b.len() >= 5 {
            Some(
                EoiCanData::Mppt(
                    MpptData {
                        mppt_id,
                        info: MpptInfo::MpptChannelState(
                            MpptChannelState {
                                mppt_channel: channel,
                                duty_cycle: spec_le_u16(b, 0),
                                algorithm: b[2],
                                algorithm_state: b[3],
                                channel_active: b[4] != 0,
                            },
                        ),
                    },
                ),
            )
        } else {
            None
        }
    } else if info_field == 8 {
        if b.len() >= 8 {
            Some(
                EoiCanData::Mppt(
                    MpptData {
                        mppt_id,
                        info: MpptInfo::MpptPower(
                            MpptPower {
                                voltage_out_bits: spec_le_u32(b, 0),
                                current_out_bits: spec_le_u32(b, 4),
                            },
                        ),
                    },
                ),
            )
        } else {
            None
        }
    } else if info_field == 9 {
        if b.len() >= 8 {
            Some(
                EoiCanData::Mppt(
                    MpptData {
                        mppt_id,
                        info: MpptInfo::MpptStatus(
                            MpptStatus {
                                voltage_out_switch_bits: spec_le_u32(b, 0),
                                temperature: spec_i16_of(spec_le_u16(b, 4)),
                                state: b[6],
                                pwm_enabled: b[7] & 0b1 != 0,
                                switch_on: b[7] & 0b10 != 0,
                            },
                        ),
                    },
                ),
            )
        } else {
            None
        }
    } else {
        None
    }
}

/// What the throttle status/config identifiers decode to, disambiguated by
/// payload length: 8 bytes are a status record, 6 bytes a configuration
/// record, anything else is unrecognized.
pub open spec fn spec_parse_throttle_status_config(b: Seq<u8>) -> Option<EoiCanData> {
    if b.len() == 8 {
        Some(
            EoiCanData::Throttle(
                ThrottleData::Status(
                    ThrottleStatus {
                        value: spec_i16_of(spec_be_u16(b, 0)),
                        raw_angle: spec_i16_of(spec_be_u16(b, 2)),
                        raw_deadmen: spec_i16_of(spec_be_u16(b, 4)),
                        gain: b[6],
                        error_any: b[7] != 0,
                        error_twi: b[7] & 0b111,
                        error_no_eeprom: b[7] & (1u8 << 3) != 0,
                        error_gain_clipping: b[7] & (1u8 << 4) != 0,
                        error_gain_invalid: b[7] & (1u8 << 5) != 0,
                        error_deadman_missing: b[7] & (1u8 << 6) != 0,
                        error_impedance_high: b[7] & (1u8 << 7) != 0,
                    },
                ),
            ),
        )
    } else if b.len() == 6 {
        Some(
            EoiCanData::Throttle(
                ThrottleData::Config(
                    ThrottleConfig {
                        control_type: spec_control_type(b[0]),
                        lever_forward: spec_i16_of(spec_be_u16(b, 2)),
                        lever_backward: spec_i16_of(spec_be_u16(b, 4)),
                    },
                ),
            ),
        )
    } else {
        None
    }
}

/// The throttle control type a wire byte stands for.
pub open spec fn spec_control_type(b: u8) -> ThrottleControlType {
    if b == 0 {
        ThrottleControlType::DutyCycle
    } else if b == 1 {
        ThrottleControlType::FilteredDutyCycle
    } else if b == 2 {
        ThrottleControlType::Current
    } else if b == 3 {
        ThrottleControlType::Rpm
    } else if b == 4 {
        ThrottleControlType::CurrentRelative
    } else {
        ThrottleControlType::Unknown
    }
}

/// What a frame with flattened identifier `id` and payload `b` decodes to.
///
/// `None` is the only failure signal: a truncated payload or an identifier
/// outside every recognized band is unrecognized, never an error.
pub open spec fn spec_parse(id: u32, b: Seq<u8>) -> Option<EoiCanData> {
    if id == 0x100 {
        if b.len() >= 8 {
            Some(
                EoiCanData::EoiBattery(
                    EoiBattery::PackAndPerriCurrent(
                        PackAndPerriCurrent {
                            pack_current_bits: spec_le_u32(b, 0),
                            perri_current_bits: spec_le_u32(b, 4),
                        },
                    ),
                ),
            )
        } else {
            None
        }
    } else if id == 0x101 {
        if b.len() >= 8 {
            Some(
                EoiCanData::EoiBattery(
                    EoiBattery::ChargeAndDischargeCurrent(
                        ChargeAndDischargeCurrent {
                            charge_current_bits: spec_le_u32(b, 0),
                            discharge_current_bits: spec_le_u32(b, 4) ^ 0x8000_0000,
                        },
                    ),
                ),
            )
        } else {
            None
        }
    } else if id == 0x102 {
        if b.len() >= 8 {
            Some(
                EoiCanData::EoiBattery(
                    EoiBattery::SocErrorFlagsAndBalancing(
                        SocErrorFlagsAndBalancing {
                            state_of_charge: spec_le_u16(b, 0),
                            error_flags: spec_le_u32(b, 2),
                            balancing_status: spec_le_u16(b, 6),
                        },
                    ),
                ),
            )
        } else {
            None
        }
    } else if id == 0x103 {
        if b.len() >= 8 {
            Some(
                EoiCanData::EoiBattery(
                    EoiBattery::CellVoltages1_4(FourCellVoltages { cell_voltage: spec_four_le_u16(b) }),
                ),
            )
        } else {
            None
        }
    } else if id == 0x104 {
        if b.len() >= 8 {
            Some(
                EoiCanData::EoiBattery(
                    EoiBattery::CellVoltages5_8(FourCellVoltages { cell_voltage: spec_four_le_u16(b) }),
                ),
            )
        } else {
            None
        }
    } else if id == 0x105 {
        if b.len() >= 8 {
            Some(
                EoiCanData::EoiBattery(
                    EoiBattery::CellVoltages9_12(FourCellVoltages { cell_voltage: spec_four_le_u16(b) }),
                ),
            )
        } else {
            None
        }
    } else if id == 0x106 {
        if b.len() >= 8 {
            Some(
                EoiCanData::EoiBattery(
                    EoiBattery::CellVoltages13_14PackAndStack(
                        CellVoltages13_14PackAndStack {
                            cell_voltage: spec_two_le_u16(b),
                            pack_voltage: spec_le_u16(b, 4),
                            stack_voltage: spec_le_u16(b, 6),
                        },
                    ),
                ),
            )
        } else {
            None
        }
    } else if id == 0x107 {
        if b.len() >= 8 {
            Some(
                EoiCanData::EoiBattery(
                    EoiBattery::TemperaturesAndStates(
                        TemperaturesAndStates {
                            temperatures: spec_four_i8(b),
                            ic_temperature: b[4] as i8,
                            battery_state: b[5],
                            charge_state: b[6],
                            discharge_state: b[7],
                        },
                    ),
                ),
            )
        } else {
            None
        }
    } else if id == 0x108 {
        if b.len() >= 4 {
            Some(
                EoiCanData::EoiBattery(
                    EoiBattery::BatteryUptime(BatteryUptime { uptime_ms: spec_le_u32(b, 0) }),
                ),
            )
        } else {
            None
        }
    } else if id == 0x200 {
        if b.len() >= 3 {
            Some(
                EoiCanData::Gnss(
                    GnssData::GnssStatus(GnssStatus { fix: b[0], sats: b[1], sats_used: b[2] }),
                ),
            )
        } else {
            None
        }
    } else if id == 0x201 {
        if b.len() >= 8 {
            Some(EoiCanData::Gnss(GnssData::GnssSpeedAndHeading(spec_le_u32(b, 0), spec_le_u32(b, 4))))
        } else {
            None
        }
    } else if id == 0x202 {
        if b.len() >= 8 {
            Some(EoiCanData::Gnss(GnssData::GnssLatitude(spec_le_u64(b, 0))))
        } else {
            None
        }
    } else if id == 0x203 {
        if b.len() >= 8 {
            Some(EoiCanData::Gnss(GnssData::GnssLongitude(spec_le_u64(b, 0))))
        } else {
            None
        }
    } else if id == 0x204 {
        if b.len() >= 7 {
            Some(
                EoiCanData::Gnss(
                    GnssData::GnssDateTime(
                        GnssDateTime {
                            year: spec_le_u16(b, 0),
                            month: b[2],
                            day: b[3],
                            hours: b[4],
                            minutes: b[5],
                            seconds: b[6],
                        },
                    ),
                ),
            )
        } else {
            None
        }
    } else if MPPT_BASE_ADDRESS <= id && id < MPPT_STOP_ADDRESS {
        spec_parse_mppt(id, b)
    } else if id == 0x0909 {
        if b.len() >= 8 {
            Some(
                EoiCanData::Vesc(
                    VescData::StatusMessage1 {
                        rpm: spec_i32_of(spec_be_u32(b, 0)),
                        total_current: spec_i16_of(spec_be_u16(b, 4)),
                        duty_cycle: spec_i16_of(spec_be_u16(b, 6)),
                    },
                ),
            )
        } else {
            None
        }
    } else if id == 0x0E09 {
        if b.len() >= 8 {
            Some(
                EoiCanData::Vesc(
                    VescData::StatusMessage2 {
                        amp_hours_used: spec_be_u32(b, 0),
                        amp_hours_generated: spec_be_u32(b, 4),
                    },
                ),
            )
        } else {
            None
        }
    } else if id == 0x0F09 {
        if b.len() >= 8 {
            Some(
                EoiCanData::Vesc(
                    VescData::StatusMessage3 {
                        watt_hours_used: spec_be_u32(b, 0),
                        watt_hours_generated: spec_be_u32(b, 4),
                    },
                ),
            )
        } else {
            None
        }
    } else if id == 0x1009 {
        if b.len() >= 8 {
            Some(
                EoiCanData::Vesc(
                    VescData::StatusMessage4 {
                        fet_temp: spec_i16_of(spec_be_u16(b, 0)),
                        motor_temp: spec_i16_of(spec_be_u16(b, 2)),
                        total_input_current: spec_i16_of(spec_be_u16(b, 4)),
                        current_pid_position: spec_i16_of(spec_be_u16(b, 6)),
                    },
                ),
            )
        } else {
            None
        }
    } else if id == 0x1B09 {
        if b.len() >= 6 {
            Some(
                EoiCanData::Vesc(
                    VescData::StatusMessage5 {
                        input_voltage: spec_i16_of(spec_be_u16(b, 4)),
                        tachometer: spec_i32_of(spec_be_u32(b, 0)),
                    },
                ),
            )
        } else {
            None
        }
    } else if id == 0x0009 {
        if b.len() >= 4 {
            Some(EoiCanData::Throttle(ThrottleData::ToVescDutyCycle(spec_i32_of(spec_be_u32(b, 0)))))
        } else {
            None
        }
    } else if id == 0x0109 {
        if b.len() >= 4 {
            Some(EoiCanData::Throttle(ThrottleData::ToVescCurrent(spec_i32_of(spec_be_u32(b, 0)))))
        } else {
            None
        }
    } else if id == 0x0309 {
        if b.len() >= 4 {
            Some(EoiCanData::Throttle(ThrottleData::ToVescRpm(spec_i32_of(spec_be_u32(b, 0)))))
        } else {
            None
        }
    } else if id == 0x1337 || id == 0x0337 {
        spec_parse_throttle_status_config(b)
    } else {
        None
    }
}

/// The four little-endian 16-bit words of an eight-byte payload.
pub open spec fn spec_four_le_u16(b: Seq<u8>) -> [u16; 4] {
    [spec_le_u16(b, 0), spec_le_u16(b, 2), spec_le_u16(b, 4), spec_le_u16(b, 6)]
}

/// The first two little-endian 16-bit words of a payload.
pub open spec fn spec_two_le_u16(b: Seq<u8>) -> [u16; 2] {
    [spec_le_u16(b, 0), spec_le_u16(b, 2)]
}

/// The first four bytes of a payload as signed temperatures.
pub open spec fn spec_four_i8(b: Seq<u8>) -> [i8; 4] {
    [b[0] as i8, b[1] as i8, b[2] as i8, b[3] as i8]
}

/// Reinterpret a byte as a two's-complement signed number.
fn u8_to_i8(x: u8) -> (r: i8)
    ensures
        r == x as i8,
{
    #[verifier::truncate] (x as i8)
}

/// Decode a frame of the MPPT band.
fn parse_mppt(id: u32, data: &Vec<u8>) -> (r: Option<EoiCanData>)
    requires
        MPPT_BASE_ADDRESS <= id < MPPT_STOP_ADDRESS,
    ensures
        r == spec_parse_mppt(id, data@),
{
    let mppt_id = ((id / 16) % 8) as u8;
    let info_field = (id % 16) as u8;
    let channel = info_field / 2;
    match info_field {
        0 | 2 | 4 | 6 => {
            if data.len() >= 8 {
                Some(
                    EoiCanData::Mppt(
                        MpptData {
                            mppt_id,
                            info: MpptInfo::MpptChannelPower(
                                MpptChannelPower {
                                    mppt_channel: channel,
                                    voltage_in_bits: le_u32_at(data, 0),
                                    current_in_bits: le_u32_at(data, 4),
                                },
                            ),
                        },
                    ),
                )
            } else {
                None
            }
        },
        1 | 3 | 5 | 7 => {
            if data.len() >= 5 {
                Some(
                    EoiCanData::Mppt(
                        MpptData {
                            mppt_id,
                            info: MpptInfo::MpptChannelState(
                                MpptChannelState {
                                    mppt_channel: channel,
                                    duty_cycle: le_u16_at(data, 0),
                                    algorithm: data[2],
                                    algorithm_state: data[3],
                                    channel_active: data[4] != 0,
                                },
                            ),
                        },
                    ),
                )
            } else {
                None
            }
        },
        8 => {
            if data.len() >= 8 {
                Some(
                    EoiCanData::Mppt(
                        MpptData {
                            mppt_id,
                            info: MpptInfo::MpptPower(
                                MpptPower {
                                    voltage_out_bits: le_u32_at(data, 0),
                                    current_out_bits: le_u32_at(data, 4),
                                },
                            ),
                        },
                    ),
                )
            } else {
                None
            }
        },
        9 => {
            if data.len() >= 8 {
                Some(
                    EoiCanData::Mppt(
                        MpptData {
                            mppt_id,
                            info: MpptInfo::MpptStatus(
                                MpptStatus {
                                    voltage_out_switch_bits: le_u32_at(data, 0),
                                    temperature: le_i16_at(data, 4),
                                    state: data[6],
                                    pwm_enabled: data[7] & 0b1 != 0,
                                    switch_on: data[7] & 0b10 != 0,
                                },
                            ),
                        },
                    ),
                )
            } else {
                None
            }
        },
        _ => None,
    }
}

/// Decode the throttle status/config identifiers, disambiguated by payload
/// length.
fn parse_throttle_status_config(data: &Vec<u8>) -> (r: Option<EoiCanData>)
    ensures
        r == spec_parse_throttle_status_config(data@),
{
    if data.len() == 8 {
        Some(
            EoiCanData::Throttle(
                ThrottleData::Status(
                    ThrottleStatus {
                        value: be_i16_at(data, 0),
                        raw_angle: be_i16_at(data, 2),
                        raw_deadmen: be_i16_at(data, 4),
                        gain: data[6],
                        error_any: data[7] != 0,
                        error_twi: data[7] & 0b111,
                        error_no_eeprom: data[7] & (1u8 << 3) != 0,
                        error_gain_clipping: data[7] & (1u8 << 4) != 0,
                        error_gain_invalid: data[7] & (1u8 << 5) != 0,
                        error_deadman_missing: data[7] & (1u8 << 6) != 0,
                        error_impedance_high: data[7] & (1u8 << 7) != 0,
                    },
                ),
            ),
        )
    } else if data.len() == 6 {
        let control_type = match data[0] {
            0 => ThrottleControlType::DutyCycle,
            1 => ThrottleControlType::FilteredDutyCycle,
            2 => ThrottleControlType::Current,
            3 => ThrottleControlType::Rpm,
            4 => ThrottleControlType::CurrentRelative,
            _ => ThrottleControlType::Unknown,
        };
        Some(
            EoiCanData::Throttle(
                ThrottleData::Config(
                    ThrottleConfig {
                        control_type,
                        lever_forward: be_i16_at(data, 2),
                        lever_backward: be_i16_at(data, 4),
                    },
                ),
            ),
        )
    } else {
        None
    }
}

/// Decode a raw CAN frame into a telemetry message.
///
/// Total and pure: for every identifier and every payload the result is
/// `Some` exactly where the wire protocol defines a record, and `None`
/// otherwise; a shared bus carries many frames this consumer must ignore, so
/// an unrecognized frame is not an error.
pub fn parse_eoi_can_data(can_frame: &CanFrame) -> (r: Option<EoiCanData>)
    ensures
        r == spec_parse(can_frame.id.spec_raw(), can_frame.data@),
{
    let id = can_frame.id.raw();
    let data = &can_frame.data;
    match id {
        0x100 => {
            if data.len() >= 8 {
                Some(
                    EoiCanData::EoiBattery(
                        EoiBattery::PackAndPerriCurrent(
                            PackAndPerriCurrent {
                                pack_current_bits: le_u32_at(data, 0),
                                perri_current_bits: le_u32_at(data, 4),
                            },
                        ),
                    ),
                )
            } else {
                None
            }
        },
        0x101 => {
            if data.len() >= 8 {
                Some(
                    EoiCanData::EoiBattery(
                        EoiBattery::ChargeAndDischargeCurrent(
                            ChargeAndDischargeCurrent {
                                charge_current_bits: le_u32_at(data, 0),
                                discharge_current_bits: le_u32_at(data, 4) ^ 0x8000_0000,
                            },
                        ),
                    ),
                )
            } else {
                None
            }
        },
        0x102 => {
            if data.len() >= 8 {
                Some(
                    EoiCanData::EoiBattery(
                        EoiBattery::SocErrorFlagsAndBalancing(
                            SocErrorFlagsAndBalancing {
                                state_of_charge: le_u16_at(data, 0),
                                error_flags: le_u32_at(data, 2),
                                balancing_status: le_u16_at(data, 6),
                            },
                        ),
                    ),
                )
            } else {
                None
            }
        },
        0x103 => {
            if data.len() >= 8 {
                Some(
                    EoiCanData::EoiBattery(
                        EoiBattery::CellVoltages1_4(FourCellVoltages { cell_voltage: four_le_u16(data) }),
                    ),
                )
            } else {
                None
            }
        },
        0x104 => {
            if data.len() >= 8 {
                Some(
                    EoiCanData::EoiBattery(
                        EoiBattery::CellVoltages5_8(FourCellVoltages { cell_voltage: four_le_u16(data) }),
                    ),
                )
            } else {
                None
            }
        },
        0x105 => {
            if data.len() >= 8 {
                Some(
                    EoiCanData::EoiBattery(
                        EoiBattery::CellVoltages9_12(FourCellVoltages { cell_voltage: four_le_u16(data) }),
                    ),
                )
            } else {
                None
            }
        },
        0x106 => {
            if data.len() >= 8 {
                let cell_voltage = [le_u16_at(data, 0), le_u16_at(data, 2)];
                proof {
                    assert(cell_voltage =~= spec_two_le_u16(data@));
                }
                Some(
                    EoiCanData::EoiBattery(
                        EoiBattery::CellVoltages13_14PackAndStack(
                            CellVoltages13_14PackAndStack {
                                cell_voltage,
                                pack_voltage: le_u16_at(data, 4),
                                stack_voltage: le_u16_at(data, 6),
                            },
                        ),
                    ),
                )
            } else {
                None
            }
        },
        0x107 => {
            if data.len() >= 8 {
                let temperatures = [
                    u8_to_i8(data[0]),
                    u8_to_i8(data[1]),
                    u8_to_i8(data[2]),
                    u8_to_i8(data[3]),
                ];
                proof {
                    assert(temperatures =~= spec_four_i8(data@));
                }
                Some(
                    EoiCanData::EoiBattery(
                        EoiBattery::TemperaturesAndStates(
                            TemperaturesAndStates {
                                temperatures,
                                ic_temperature: u8_to_i8(data[4]),
                                battery_state: data[5],
                                charge_state: data[6],
                                discharge_state: data[7],
                            },
                        ),
                    ),
                )
            } else {
                None
            }
        },
        0x108 => {
            if data.len() >= 4 {
                Some(
                    EoiCanData::EoiBattery(
                        EoiBattery::BatteryUptime(BatteryUptime { uptime_ms: le_u32_at(data, 0) }),
                    ),
                )
            } else {
                None
            }
        },
        0x200 => {
            if data.len() >= 3 {
                Some(
                    EoiCanData::Gnss(
                        GnssData::GnssStatus(
                            GnssStatus { fix: data[0], sats: data[1], sats_used: data[2] },
                        ),
                    ),
                )
            } else {
                None
            }
        },
        0x201 => {
            if data.len() >= 8 {
                Some(
                    EoiCanData::Gnss(
                        GnssData::GnssSpeedAndHeading(le_u32_at(data, 0), le_u32_at(data, 4)),
                    ),
                )
            } else {
                None
            }
        },
        0x202 => {
            if data.len() >= 8 {
                Some(EoiCanData::Gnss(GnssData::GnssLatitude(le_u64_at(data, 0))))
            } else {
                None
            }
        },
        0x203 => {
            if data.len() >= 8 {
                Some(EoiCanData::Gnss(GnssData::GnssLongitude(le_u64_at(data, 0))))
            } else {
                None
            }
        },
        0x204 => {
            if data.len() >= 7 {
                Some(
                    EoiCanData::Gnss(
                        GnssData::GnssDateTime(
                            GnssDateTime {
                                year: le_u16_at(data, 0),
                                month: data[2],
                                day: data[3],
                                hours: data[4],
                                minutes: data[5],
                                seconds: data[6],
                            },
                        ),
                    ),
                )
            } else {
                None
            }
        },
        0x0909 => {
            if data.len() >= 8 {
                Some(
                    EoiCanData::Vesc(
                        VescData::StatusMessage1 {
                            rpm: be_i32_at(data, 0),
                            total_current: be_i16_at(data, 4),
                            duty_cycle: be_i16_at(data, 6),
                        },
                    ),
                )
            } else {
                None
            }
        },
        0x0E09 => {
            if data.len() >= 8 {
                Some(
                    EoiCanData::Vesc(
                        VescData::StatusMessage2 {
                            amp_hours_used: be_u32_at(data, 0),
                            amp_hours_generated: be_u32_at(data, 4),
                        },
                    ),
                )
            } else {
                None
            }
        },
        0x0F09 => {
            if data.len() >= 8 {
                Some(
                    EoiCanData::Vesc(
                        VescData::StatusMessage3 {
                            watt_hours_used: be_u32_at(data, 0),
                            watt_hours_generated: be_u32_at(data, 4),
                        },
                    ),
                )
            } else {
                None
            }
        },
        0x1009 => {
            if data.len() >= 8 {
                Some(
                    EoiCanData::Vesc(
                        VescData::StatusMessage4 {
                            fet_temp: be_i16_at(data, 0),
                            motor_temp: be_i16_at(data, 2),
                            total_input_current: be_i16_at(data, 4),
                            current_pid_position: be_i16_at(data, 6),
                        },
                    ),
                )
            } else {
                None
            }
        },
        0x1B09 => {
            if data.len() >= 6 {
                Some(
                    EoiCanData::Vesc(
                        VescData::StatusMessage5 {
                            input_voltage: be_i16_at(data, 4),
                            tachometer: be_i32_at(data, 0),
                        },
                    ),
                )
            } else {
                None
            }
        },
        0x0009 => {
            if data.len() >= 4 {
                Some(EoiCanData::Throttle(ThrottleData::ToVescDutyCycle(be_i32_at(data, 0))))
            } else {
                None
            }
        },
        0x0109 => {
            if data.len() >= 4 {
                Some(EoiCanData::Throttle(ThrottleData::ToVescCurrent(be_i32_at(data, 0))))
            } else {
                None
            }
        },
        0x0309 => {
            if data.len() >= 4 {
                Some(EoiCanData::Throttle(ThrottleData::ToVescRpm(be_i32_at(data, 0))))
            } else {
                None
            }
        },
        0x1337 | 0x0337 => parse_throttle_status_config(data),
        _ => {
            if MPPT_BASE_ADDRESS <= id && id < MPPT_STOP_ADDRESS {
                parse_mppt(id, data)
            } else {
                None
            }
        },
    }
}

/// The four little-endian 16-bit words of an eight-byte payload.
fn four_le_u16(data: &Vec<u8>) -> (r: [u16; 4])
    requires
        data.len() >= 8,
    ensures
        r == spec_four_le_u16(data@),
{
    let r = [le_u16_at(data, 0), le_u16_at(data, 2), le_u16_at(data, 4), le_u16_at(data, 6)];
    proof {
        assert(r =~= spec_four_le_u16(data@));
    }
    r
}

} // verus!
