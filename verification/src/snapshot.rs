//! The aggregate snapshot of vehicle state and the ingestion dispatch that
//! routes each decoded message to the fields it refreshes.
//!
//! Every field is a [`DisplayValue`] cell that expires independently; the
//! snapshot is mutated only by `ingest_eoi_can_data` and read by a consumer
//! through each cell's `get`. Derived quantities (net power, panel power)
//! are not stored: display code computes them from the stored inputs, so a
//! stale input poisons the derived reading instead of freezing it.

use vstd::prelude::*;

use crate::codec::EoiBattery;
use crate::codec::EoiCanData;
use crate::codec::GnssData;
use crate::codec::GnssDateTime;
use crate::codec::MpptChannelPower;
use crate::codec::MpptData;
use crate::codec::MpptInfo;
use crate::codec::ThrottleData;
use crate::codec::ThrottleStatus;
use crate::codec::VescData;
use crate::stale::DisplayValue;
use vstd::array::spec_array_update;

verus! {

broadcast use vstd::array::group_array_axioms;

/// Number of battery cells whose voltages are tracked.
pub const CELL_COUNT: usize = 14;

/// Number of battery temperature probes.
pub const TEMPERATURE_COUNT: usize = 4;

/// Number of solar panels on the vehicle.
pub const PANEL_COUNT: usize = 11;

/// The stored reading of one solar panel: input voltage and current as
/// IEEE-754 single-precision bit patterns. The displayed panel power is
/// their product, computed at display time.
#[derive(Clone, Copy, Debug, PartialEq, Eq)]
pub struct MpptPanelInfo {
    pub voltage_in_bits: u32,
    pub current_in_bits: u32,
}

/// The throttle error flags a status message carries.
#[derive(Clone, Copy, Debug, PartialEq, Eq)]
pub struct ThrottleErrors {
    pub error_any: bool,
    pub error_twi: u8,
    pub error_no_eeprom: bool,
    pub error_gain_clipping: bool,
    pub error_gain_invalid: bool,
    pub error_deadman_missing: bool,
    pub error_impedance_high: bool,
}

/// The error flags of a throttle status message.
pub open spec fn spec_errors_of(s: ThrottleStatus) -> ThrottleErrors {
    ThrottleErrors {
        error_any: s.error_any,
        error_twi: s.error_twi,
        error_no_eeprom: s.error_no_eeprom,
        error_gain_clipping: s.error_gain_clipping,
        error_gain_invalid: s.error_gain_invalid,
        error_deadman_missing: s.error_deadman_missing,
        error_impedance_high: s.error_impedance_high,
    }
}

/// The flat panel index a `(controller, channel)` pair feeds, if any.
///
/// This table is protocol-specific wiring knowledge: which controller
/// channel is cabled to which physical panel. Pairs outside the table are
/// unused hardware channels and are silently ignored.
pub open spec fn spec_mppt_panel_index(mppt_id: u8, channel: u8) -> Option<usize> {
    if mppt_id == 2 && channel == 1 {
        Some(0usize)
    } else if mppt_id == 2 && channel == 2 {
        Some(1usize)
    } else if mppt_id == 2 && channel == 3 {
        Some(2usize)
    } else if mppt_id == 5 && channel == 0 {
        Some(3usize)
    } else if mppt_id == 5 && channel == 1 {
        Some(4usize)
    } else if mppt_id == 5 && channel == 2 {
        Some(5usize)
    } else if mppt_id == 4 && channel == 1 {
        Some(6usize)
    } else if mppt_id == 4 && channel == 2 {
        Some(7usize)
    } else if mppt_id == 6 && channel == 0 {
        Some(8usize)
    } else if mppt_id == 6 && channel == 1 {
        Some(9usize)
    } else if mppt_id == 6 && channel == 2 {
        Some(10usize)
    } else {
        None
    }
}

/// The flat panel index a `(controller, channel)` pair feeds, if any.
pub fn mppt_panel_index(mppt_id: u8, channel: u8) -> (r: Option<usize>)
    ensures
        r == spec_mppt_panel_index(mppt_id, channel),
        r matches Some(i) ==> i < PANEL_COUNT,
{
    match (mppt_id, channel) {
        (2, 1) => Some(0),
        (2, 2) => Some(1),
        (2, 3) => Some(2),
        (5, 0) => Some(3),
        (5, 1) => Some(4),
        (5, 2) => Some(5),
        (4, 1) => Some(6),
        (4, 2) => Some(7),
        (6, 0) => Some(8),
        (6, 1) => Some(9),
        (6, 2) => Some(10),
        _ => None,
    }
}

/// One cell of an array of `DisplayValue`s refreshed to `v` at time `now`.
pub open spec fn spec_cell_set<T, const N: usize>(
    a: [DisplayValue<T>; N],
    i: int,
    v: T,
    now: u64,
) -> [DisplayValue<T>; N] {
    spec_array_update(a, i, a[i].spec_update(v, now))
}

/// The cells `offset..offset + vals.len()` refreshed to `vals` at time
/// `now`, front to back.
pub open spec fn spec_cells_set<T, const N: usize>(
    a: [DisplayValue<T>; N],
    offset: int,
    vals: Seq<T>,
    now: u64,
) -> [DisplayValue<T>; N]
    decreases vals.len(),
{
    if vals.len() == 0 {
        a
    } else {
        spec_cells_set(spec_cell_set(a, offset, vals[0], now), offset + 1, vals.drop_first(), now)
    }
}

/// Refresh one cell of an array of `DisplayValue`s.
fn cell_set<T: Copy, const N: usize>(a: &mut [DisplayValue<T>; N], i: usize, v: T, now: u64)
    requires
        i < N,
    ensures
        *final(a) == spec_cell_set(*old(a), i as int, v, now),
{
    let mut c = a[i];
    c.update(v, now);
    a[i] = c;
    proof {
        assert(*a =~= spec_cell_set(*old(a), i as int, v, now));
    }
}

/// The aggregate, independently-aging view of all telemetry fields.
///
/// Scaled integers and IEEE-754 bit patterns are stored exactly as decoded;
/// the documentation of each decoded record gives the scale.
#[derive(Clone, Copy, Debug)]
#[verifier::ext_equal]
pub struct DisplayData {
    /// Speed over ground in km/h, an IEEE-754 single-precision bit pattern.
    pub speed_kmh: DisplayValue<u32>,
    pub gnss_fix: DisplayValue<bool>,
    /// Hundredths of a percent.
    pub battery_state_of_charge: DisplayValue<u16>,
    /// Minutes; set by the host, not by ingestion.
    pub battery_time_to_empty: DisplayValue<u16>,
    /// Millivolts.
    pub battery_cell_voltages: [DisplayValue<u16>; 14],
    /// IEEE-754 single-precision bit pattern.
    pub battery_current_pack: DisplayValue<u32>,
    /// IEEE-754 single-precision bit pattern.
    pub battery_current_in: DisplayValue<u32>,
    /// IEEE-754 single-precision bit pattern.
    pub battery_current_out_motor: DisplayValue<u32>,
    /// IEEE-754 single-precision bit pattern.
    pub battery_current_out_peripherals: DisplayValue<u32>,
    /// Pack voltage in millivolts.
    pub battery_voltage: DisplayValue<u16>,
    /// Degrees Celsius.
    pub battery_temperatures: [DisplayValue<i8>; 4],
    pub battery_uptime_ms: DisplayValue<u32>,
    pub battery_error_flags: DisplayValue<u32>,
    pub battery_balancing_status: DisplayValue<u16>,
    pub battery_state: DisplayValue<u8>,
    pub battery_charge_state: DisplayValue<u8>,
    pub battery_discharge_state: DisplayValue<u8>,
    /// Tenths of a volt.
    pub motor_battery_voltage: DisplayValue<i16>,
    /// Tenths of an ampere.
    pub motor_battery_current: DisplayValue<i16>,
    /// Tenths of an ampere.
    pub motor_current: DisplayValue<i16>,
    /// Tenths of a percent.
    pub motor_duty_cycle: DisplayValue<i16>,
    pub motor_rpm: DisplayValue<i32>,
    /// Tenths of a degree Celsius.
    pub motor_fet_temperature: DisplayValue<i16>,
    /// Tenths of a degree Celsius.
    pub motor_temperature: DisplayValue<i16>,
    /// Raw lever position; 512 raw counts are 100 percent.
    pub throttle_value: DisplayValue<i16>,
    pub throttle_errors: DisplayValue<ThrottleErrors>,
    pub mppt_panel_info: [DisplayValue<MpptPanelInfo>; 11],
    /// Set by the host, not by ingestion.
    pub charging_disabled: DisplayValue<bool>,
    pub time: DisplayValue<GnssDateTime>,
    /// IPv4 address, octets packed big-endian; set by the host.
    pub ip_address: DisplayValue<u32>,
    /// Charge of the display's own battery, an IEEE-754 single-precision
    /// bit pattern; set by the host.
    pub display_state_of_charge: DisplayValue<u32>,
    /// Set by the host, not by ingestion.
    pub display_is_charging: DisplayValue<bool>,
}

/// The snapshot after one decoded message is folded in at time `now`.
pub open spec fn spec_ingest(d: DisplayData, data: EoiCanData, now: u64) -> DisplayData {
    match data {
        EoiCanData::EoiBattery(eoi_battery) => match eoi_battery {
            EoiBattery::ChargeAndDischargeCurrent(m) => DisplayData {
                battery_current_in: d.battery_current_in.spec_update(m.charge_current_bits, now),
                battery_current_out_motor: d.battery_current_out_motor.spec_update(
                    m.discharge_current_bits,
                    now,
                ),
                ..d
            },
            EoiBattery::SocErrorFlagsAndBalancing(m) => DisplayData {
                battery_state_of_charge: d.battery_state_of_charge.spec_update(
                    m.state_of_charge,
                    now,
                ),
                battery_error_flags: d.battery_error_flags.spec_update(m.error_flags, now),
                battery_balancing_status: d.battery_balancing_status.spec_update(
                    m.balancing_status,
                    now,
                ),
                ..d
            },
            EoiBattery::PackAndPerriCurrent(m) => DisplayData {
                battery_current_out_peripherals: d.battery_current_out_peripherals.spec_update(
                    m.perri_current_bits,
                    now,
                ),
                battery_current_pack: d.battery_current_pack.spec_update(m.pack_current_bits, now),
                ..d
            },
            EoiBattery::CellVoltages1_4(m) => DisplayData {
                battery_cell_voltages: spec_cells_set(
                    d.battery_cell_voltages,
                    0,
                    m.cell_voltage@,
                    now,
                ),
                ..d
            },
            EoiBattery::CellVoltages5_8(m) => DisplayData {
                battery_cell_voltages: spec_cells_set(
                    d.battery_cell_voltages,
                    4,
                    m.cell_voltage@,
                    now,
                ),
                ..d
            },
            EoiBattery::CellVoltages9_12(m) => DisplayData {
                battery_cell_voltages: spec_cells_set(
                    d.battery_cell_voltages,
                    8,
                    m.cell_voltage@,
                    now,
                ),
                ..d
            },
            EoiBattery::CellVoltages13_14PackAndStack(m) => DisplayData {
                battery_cell_voltages: spec_cells_set(
                    d.battery_cell_voltages,
                    12,
                    m.cell_voltage@,
                    now,
                ),
                battery_voltage: d.battery_voltage.spec_update(m.pack_voltage, now),
                ..d
            },
            EoiBattery::TemperaturesAndStates(m) => DisplayData {
                battery_temperatures: spec_cells_set(
                    d.battery_temperatures,
                    0,
                    m.temperatures@,
                    now,
                ),
                battery_state: d.battery_state.spec_update(m.battery_state, now),
                battery_charge_state: d.battery_charge_state.spec_update(m.charge_state, now),
                battery_discharge_state: d.battery_discharge_state.spec_update(
                    m.discharge_state,
                    now,
                ),
                ..d
            },
            EoiBattery::BatteryUptime(m) => DisplayData {
                battery_uptime_ms: d.battery_uptime_ms.spec_update(m.uptime_ms, now),
                ..d
            },
        },
        EoiCanData::Throttle(throttle) => match throttle {
            ThrottleData::Status(m) => DisplayData {
                throttle_value: d.throttle_value.spec_update(m.value, now),
                throttle_errors: d.throttle_errors.spec_update(spec_errors_of(m), now),
                ..d
            },
            _ => d,
        },
        EoiCanData::Vesc(vesc) => match vesc {
            VescData::StatusMessage1 { rpm, total_current, duty_cycle } => DisplayData {
                motor_rpm: d.motor_rpm.spec_update(rpm, now),
                motor_current: d.motor_current.spec_update(total_current, now),
                motor_duty_cycle: d.motor_duty_cycle.spec_update(duty_cycle, now),
                ..d
            },
            VescData::StatusMessage4 {
                fet_temp,
                motor_temp,
                total_input_current,
                current_pid_position: _,
            } => DisplayData {
                motor_battery_current: d.motor_battery_current.spec_update(
                    total_input_current,
                    now,
                ),
                motor_fet_temperature: d.motor_fet_temperature.spec_update(fet_temp, now),
                motor_temperature: d.motor_temperature.spec_update(motor_temp, now),
                ..d
            },
            VescData::StatusMessage5 { input_voltage, tachometer: _ } => DisplayData {
                motor_battery_voltage: d.motor_battery_voltage.spec_update(input_voltage, now),
                ..d
            },
            _ => d,
        },
        EoiCanData::Mppt(mppt_data) => match mppt_data.info {
            MpptInfo::MpptChannelPower(cp) => match spec_mppt_panel_index(
                mppt_data.mppt_id,
                cp.mppt_channel,
            ) {
                Some(i) => DisplayData {
                    mppt_panel_info: spec_cell_set(
                        d.mppt_panel_info,
                        i as int,
                        MpptPanelInfo {
                            voltage_in_bits: cp.voltage_in_bits,
                            current_in_bits: cp.current_in_bits,
                        },
                        now,
                    ),
                    ..d
                },
                None => d,
            },
            _ => d,
        },
        EoiCanData::Gnss(gnss) => match gnss {
            GnssData::GnssSpeedAndHeading(speed_bits, _) => DisplayData {
                speed_kmh: d.speed_kmh.spec_update(speed_bits, now),
                ..d
            },
            GnssData::GnssDateTime(m) => DisplayData { time: d.time.spec_update(m, now), ..d },
            GnssData::GnssStatus(m) => DisplayData {
                gnss_fix: d.gnss_fix.spec_update(m.fix != 0, now),
                ..d
            },
            _ => d,
        },
    }
}

impl DisplayData {
    /// Fold one decoded message into the snapshot at time `now`,
    /// refreshing exactly the fields that message carries.
    pub fn ingest_eoi_can_data(&mut self, data: EoiCanData, now: u64)
        ensures
            *final(self) == spec_ingest(*old(self), data, now),
    {
        match data {
            EoiCanData::EoiBattery(eoi_battery) => match eoi_battery {
                EoiBattery::ChargeAndDischargeCurrent(m) => {
                    self.battery_current_in.update(m.charge_current_bits, now);
                    self.battery_current_out_motor.update(m.discharge_current_bits, now);
                    proof {
                        assert(*self =~= spec_ingest(*old(self), data, now));
                    }
                },
                EoiBattery::SocErrorFlagsAndBalancing(m) => {
                    self.battery_state_of_charge.update(m.state_of_charge, now);
                    self.battery_error_flags.update(m.error_flags, now);
                    self.battery_balancing_status.update(m.balancing_status, now);
                    proof {
                        assert(*self =~= spec_ingest(*old(self), data, now));
                    }
                },
                EoiBattery::PackAndPerriCurrent(m) => {
                    self.battery_current_out_peripherals.update(m.perri_current_bits, now);
                    self.battery_current_pack.update(m.pack_current_bits, now);
                    proof {
                        assert(*self =~= spec_ingest(*old(self), data, now));
                    }
                },
                EoiBattery::CellVoltages1_4(m) => {
                    self.update_cell_voltages(0, m.cell_voltage.as_slice(), now);
                    proof {
                        assert(*self =~= spec_ingest(*old(self), data, now));
                    }
                },
                EoiBattery::CellVoltages5_8(m) => {
                    self.update_cell_voltages(4, m.cell_voltage.as_slice(), now);
                    proof {
                        assert(*self =~= spec_ingest(*old(self), data, now));
                    }
                },
                EoiBattery::CellVoltages9_12(m) => {
                    self.update_cell_voltages(8, m.cell_voltage.as_slice(), now);
                    proof {
                        assert(*self =~= spec_ingest(*old(self), data, now));
                    }
                },
                EoiBattery::CellVoltages13_14PackAndStack(m) => {
                    self.update_cell_voltages(12, m.cell_voltage.as_slice(), now);
                    self.battery_voltage.update(m.pack_voltage, now);
                    proof {
                        assert(*self =~= spec_ingest(*old(self), data, now));
                    }
                },
                EoiBattery::TemperaturesAndStates(m) => {
                    cell_set(&mut self.battery_temperatures, 0, m.temperatures[0], now);
                    cell_set(&mut self.battery_temperatures, 1, m.temperatures[1], now);
                    cell_set(&mut self.battery_temperatures, 2, m.temperatures[2], now);
                    cell_set(&mut self.battery_temperatures, 3, m.temperatures[3], now);
                    self.battery_state.update(m.battery_state, now);
                    self.battery_charge_state.update(m.charge_state, now);
                    self.battery_discharge_state.update(m.discharge_state, now);
                    proof {
                        lemma_cells_set_unfold4(old(self).battery_temperatures, m.temperatures, now);
                        assert(*self =~= spec_ingest(*old(self), data, now));
                    }
                },
                EoiBattery::BatteryUptime(m) => {
                    self.battery_uptime_ms.update(m.uptime_ms, now);
                    proof {
                        assert(*self =~= spec_ingest(*old(self), data, now));
                    }
                },
            },
            EoiCanData::Throttle(throttle) => match throttle {
                ThrottleData::Status(m) => {
                    self.throttle_value.update(m.value, now);
                    self.throttle_errors.update(
                        ThrottleErrors {
                            error_any: m.error_any,
                            error_twi: m.error_twi,
                            error_no_eeprom: m.error_no_eeprom,
                            error_gain_clipping: m.error_gain_clipping,
                            error_gain_invalid: m.error_gain_invalid,
                            error_deadman_missing: m.error_deadman_missing,
                            error_impedance_high: m.error_impedance_high,
                        },
                        now,
                    );
                    proof {
                        assert(*self =~= spec_ingest(*old(self), data, now));
                    }
                },
                _ => {},
            },
            EoiCanData::Vesc(vesc) => match vesc {
                VescData::StatusMessage1 { rpm, total_current, duty_cycle } => {
                    self.motor_rpm.update(rpm, now);
                    self.motor_current.update(total_current, now);
                    self.motor_duty_cycle.update(duty_cycle, now);
                    proof {
                        assert(*self =~= spec_ingest(*old(self), data, now));
                    }
                },
                VescData::StatusMessage4 {
                    fet_temp,
                    motor_temp,
                    total_input_current,
                    current_pid_position: _,
                } => {
                    self.motor_battery_current.update(total_input_current, now);
                    self.motor_fet_temperature.update(fet_temp, now);
                    self.motor_temperature.update(motor_temp, now);
                    proof {
                        assert(*self =~= spec_ingest(*old(self), data, now));
                    }
                },
                VescData::StatusMessage5 { input_voltage, tachometer: _ } => {
                    self.motor_battery_voltage.update(input_voltage, now);
                    proof {
                        assert(*self =~= spec_ingest(*old(self), data, now));
                    }
                },
                _ => {},
            },
            EoiCanData::Mppt(mppt_data) => match mppt_data.info {
                MpptInfo::MpptChannelPower(cp) => {
                    match mppt_panel_index(mppt_data.mppt_id, cp.mppt_channel) {
                        Some(panel_id) => {
                            cell_set(
                                &mut self.mppt_panel_info,
                                panel_id,
                                MpptPanelInfo {
                                    voltage_in_bits: cp.voltage_in_bits,
                                    current_in_bits: cp.current_in_bits,
                                },
                                now,
                            );
                            proof {
                                assert(*self =~= spec_ingest(*old(self), data, now));
                            }
                        },
                        None => {},
                    }
                },
                _ => {},
            },
            EoiCanData::Gnss(gnss) => match gnss {
                GnssData::GnssSpeedAndHeading(speed_bits, _) => {
                    self.speed_kmh.update(speed_bits, now);
                    proof {
                        assert(*self =~= spec_ingest(*old(self), data, now));
                    }
                },
                GnssData::GnssDateTime(m) => {
                    self.time.update(m, now);
                    proof {
                        assert(*self =~= spec_ingest(*old(self), data, now));
                    }
                },
                GnssData::GnssStatus(m) => {
                    self.gnss_fix.update(m.fix != 0, now);
                    proof {
                        assert(*self =~= spec_ingest(*old(self), data, now));
                    }
                },
                _ => {},
            },
        }
    }

    /// Refresh the run of cell-voltage cells starting at `offset` from a
    /// slice of millivolt readings.
    pub fn update_cell_voltages(&mut self, offset: usize, values: &[u16], now: u64)
        requires
            offset + values@.len() <= CELL_COUNT,
        ensures
            *final(self) == (DisplayData {
                battery_cell_voltages: spec_cells_set(
                    old(self).battery_cell_voltages,
                    offset as int,
                    values@,
                    now,
                ),
                ..*old(self)
            }),
    {
        let n = values.len();
        let mut i: usize = 0;
        proof {
            assert(values@.skip(0) =~= values@);
        }
        while i < n
            invariant
                n == values@.len(),
                i <= n,
                offset + n <= CELL_COUNT,
                *self == (DisplayData {
                    battery_cell_voltages: self.battery_cell_voltages,
                    ..*old(self)
                }),
                spec_cells_set(
                    old(self).battery_cell_voltages,
                    offset as int,
                    values@,
                    now,
                ) == spec_cells_set(
                    self.battery_cell_voltages,
                    offset + i,
                    values@.skip(i as int),
                    now,
                ),
            decreases n - i,
        {
            cell_set(
                &mut self.battery_cell_voltages,
                offset + i,
                *vstd::slice::slice_index_get(values, i),
                now,
            );
            proof {
                assert(values@.skip(i as int).drop_first() =~= values@.skip(i + 1));
                assert(values@.skip(i as int)[0] == values@[i as int]);
            }
            i = i + 1;
        }
        proof {
            assert(values@.skip(n as int) =~= Seq::<u16>::empty());
            assert(*self =~= DisplayData {
                battery_cell_voltages: spec_cells_set(
                    old(self).battery_cell_voltages,
                    offset as int,
                    values@,
                    now,
                ),
                ..*old(self)
            });
        }
    }
}

impl DisplayData {
    /// A snapshot in which no field ever received a value: every read
    /// returns nothing, exactly as if every field had expired long ago.
    pub open spec fn spec_default() -> DisplayData {
        DisplayData {
            speed_kmh: DisplayValue::spec_default(),
            gnss_fix: DisplayValue::spec_default(),
            battery_state_of_charge: DisplayValue::spec_default(),
            battery_time_to_empty: DisplayValue::spec_default(),
            battery_cell_voltages: vstd::array::spec_array_fill_for_copy_type(
                DisplayValue::spec_default(),
            ),
            battery_current_pack: DisplayValue::spec_default(),
            battery_current_in: DisplayValue::spec_default(),
            battery_current_out_motor: DisplayValue::spec_default(),
            battery_current_out_peripherals: DisplayValue::spec_default(),
            battery_voltage: DisplayValue::spec_default(),
            battery_temperatures: vstd::array::spec_array_fill_for_copy_type(
                DisplayValue::spec_default(),
            ),
            battery_uptime_ms: DisplayValue::spec_default(),
            battery_error_flags: DisplayValue::spec_default(),
            battery_balancing_status: DisplayValue::spec_default(),
            battery_state: DisplayValue::spec_default(),
            battery_charge_state: DisplayValue::spec_default(),
            battery_discharge_state: DisplayValue::spec_default(),
            motor_battery_voltage: DisplayValue::spec_default(),
            motor_battery_current: DisplayValue::spec_default(),
            motor_current: DisplayValue::spec_default(),
            motor_duty_cycle: DisplayValue::spec_default(),
            motor_rpm: DisplayValue::spec_default(),
            motor_fet_temperature: DisplayValue::spec_default(),
            motor_temperature: DisplayValue::spec_default(),
            throttle_value: DisplayValue::spec_default(),
            throttle_errors: DisplayValue::spec_default(),
            mppt_panel_info: vstd::array::spec_array_fill_for_copy_type(
                DisplayValue::spec_default(),
            ),
            charging_disabled: DisplayValue::spec_default(),
            time: DisplayValue::spec_default(),
            ip_address: DisplayValue::spec_default(),
            display_state_of_charge: DisplayValue::spec_default(),
            display_is_charging: DisplayValue::spec_default(),
        }
    }
}

impl Default for DisplayData {
    /// A snapshot in which no field ever received a value.
    fn default() -> (r: Self)
        ensures
            r == DisplayData::spec_default(),
    {
        DisplayData {
            speed_kmh: DisplayValue::default(),
            gnss_fix: DisplayValue::default(),
            battery_state_of_charge: DisplayValue::default(),
            battery_time_to_empty: DisplayValue::default(),
            battery_cell_voltages: [DisplayValue::default(); 14],
            battery_current_pack: DisplayValue::default(),
            battery_current_in: DisplayValue::default(),
            battery_current_out_motor: DisplayValue::default(),
            battery_current_out_peripherals: DisplayValue::default(),
            battery_voltage: DisplayValue::default(),
            battery_temperatures: [DisplayValue::default(); 4],
            battery_uptime_ms: DisplayValue::default(),
            battery_error_flags: DisplayValue::default(),
            battery_balancing_status: DisplayValue::default(),
            battery_state: DisplayValue::default(),
            battery_charge_state: DisplayValue::default(),
            battery_discharge_state: DisplayValue::default(),
            motor_battery_voltage: DisplayValue::default(),
            motor_battery_current: DisplayValue::default(),
            motor_current: DisplayValue::default(),
            motor_duty_cycle: DisplayValue::default(),
            motor_rpm: DisplayValue::default(),
            motor_fet_temperature: DisplayValue::default(),
            motor_temperature: DisplayValue::default(),
            throttle_value: DisplayValue::default(),
            throttle_errors: DisplayValue::default(),
            mppt_panel_info: [DisplayValue::default(); 11],
            charging_disabled: DisplayValue::default(),
            time: DisplayValue::default(),
            ip_address: DisplayValue::default(),
            display_state_of_charge: DisplayValue::default(),
            display_is_charging: DisplayValue::default(),
        }
    }
}

/// Sum of the fresh values among the first `n` temperature probes.
pub open spec fn spec_temp_sum(a: [DisplayValue<i8>; 4], now: u64, n: int) -> int
    decreases n,
{
    if n <= 0 {
        0
    } else {
        spec_temp_sum(a, now, n - 1) + if a[n - 1].spec_is_valid(now) {
            a[n - 1].value->0 as int
        } else {
            0
        }
    }
}

/// How many of the first `n` temperature probes are fresh.
pub open spec fn spec_temp_count(a: [DisplayValue<i8>; 4], now: u64, n: int) -> int
    decreases n,
{
    if n <= 0 {
        0
    } else {
        spec_temp_count(a, now, n - 1) + if a[n - 1].spec_is_valid(now) {
            1int
        } else {
            0int
        }
    }
}

/// Sum of the fresh values among the first `n` cell-voltage cells.
pub open spec fn spec_cell_sum(a: [DisplayValue<u16>; 14], now: u64, n: int) -> int
    decreases n,
{
    if n <= 0 {
        0
    } else {
        spec_cell_sum(a, now, n - 1) + if a[n - 1].spec_is_valid(now) {
            a[n - 1].value->0 as int
        } else {
            0
        }
    }
}

/// How many of the first `n` cell-voltage cells are fresh.
pub open spec fn spec_cell_count(a: [DisplayValue<u16>; 14], now: u64, n: int) -> int
    decreases n,
{
    if n <= 0 {
        0
    } else {
        spec_cell_count(a, now, n - 1) + if a[n - 1].spec_is_valid(now) {
            1int
        } else {
            0int
        }
    }
}

impl DisplayData {
    /// Smallest and largest fresh temperature, their sum and how many
    /// probes are fresh; nothing when every probe is stale. The consumer
    /// divides sum by count for the average it displays.
    pub fn battery_temperature_stats(&self, now: u64) -> (r: Option<(i8, i8, i32, usize)>)
        ensures
            match r {
                Some((mn, mx, sum, count)) => {
                    &&& exists|i: int|
                        0 <= i < TEMPERATURE_COUNT && self.battery_temperatures@[i].spec_get(now)
                            == Some(mn)
                    &&& exists|i: int|
                        0 <= i < TEMPERATURE_COUNT && self.battery_temperatures@[i].spec_get(now)
                            == Some(mx)
                    &&& forall|i: int|
                        0 <= i < TEMPERATURE_COUNT && self.battery_temperatures@[i].spec_is_valid(
                            now,
                        ) ==> mn <= #[trigger] self.battery_temperatures@[i].value->0 <= mx
                    &&& sum == spec_temp_sum(self.battery_temperatures, now, 4)
                    &&& count == spec_temp_count(self.battery_temperatures, now, 4)
                    &&& count > 0
                },
                None => forall|i: int|
                    0 <= i < TEMPERATURE_COUNT ==> !(#[trigger] self.battery_temperatures@[i]
                        .spec_is_valid(now)),
            },
    {
        let mut mn: i8 = i8::MAX;
        let mut mx: i8 = i8::MIN;
        let mut sum: i32 = 0;
        let mut count: usize = 0;
        let mut i: usize = 0;
        while i < TEMPERATURE_COUNT
            invariant
                i <= TEMPERATURE_COUNT,
                sum == spec_temp_sum(self.battery_temperatures, now, i as int),
                count == spec_temp_count(self.battery_temperatures, now, i as int),
                0 <= count <= i,
                -128 * (i as int) <= sum <= 127 * (i as int),
                count == 0 ==> mn == i8::MAX && mx == i8::MIN,
                count == 0 ==> forall|j: int|
                    0 <= j < i ==> !(#[trigger] self.battery_temperatures@[j].spec_is_valid(now)),
                count > 0 ==> exists|j: int|
                    0 <= j < i && self.battery_temperatures@[j].spec_get(now) == Some(mn),
                count > 0 ==> exists|j: int|
                    0 <= j < i && self.battery_temperatures@[j].spec_get(now) == Some(mx),
                forall|j: int|
                    0 <= j < i && self.battery_temperatures@[j].spec_is_valid(now) ==> mn
                        <= #[trigger] self.battery_temperatures@[j].value->0 <= mx,
            decreases TEMPERATURE_COUNT - i,
        {
            let cell = self.battery_temperatures[i];
            match cell.get(now) {
                Some(t) => {
                    let t = *t;
                    if count == 0 || t < mn {
                        mn = t;
                    }
                    if count == 0 || t > mx {
                        mx = t;
                    }
                    sum = sum + t as i32;
                    count = count + 1;
                },
                None => {},
            }
            i = i + 1;
        }
        if count == 0 {
            None
        } else {
            Some((mn, mx, sum, count))
        }
    }

    /// Smallest and largest fresh cell voltage in millivolts, their sum and
    /// how many cells are fresh; nothing when every cell is stale. The
    /// consumer derives average and spread from these.
    pub fn cell_voltage_stats(&self, now: u64) -> (r: Option<(u16, u16, u32, usize)>)
        ensures
            match r {
                Some((mn, mx, sum, count)) => {
                    &&& exists|i: int|
                        0 <= i < CELL_COUNT && self.battery_cell_voltages@[i].spec_get(now)
                            == Some(mn)
                    &&& exists|i: int|
                        0 <= i < CELL_COUNT && self.battery_cell_voltages@[i].spec_get(now)
                            == Some(mx)
                    &&& forall|i: int|
                        0 <= i < CELL_COUNT && self.battery_cell_voltages@[i].spec_is_valid(now)
                            ==> mn <= #[trigger] self.battery_cell_voltages@[i].value->0 <= mx
                    &&& sum == spec_cell_sum(self.battery_cell_voltages, now, 14)
                    &&& count == spec_cell_count(self.battery_cell_voltages, now, 14)
                    &&& count > 0
                },
                None => forall|i: int|
                    0 <= i < CELL_COUNT ==> !(#[trigger] self.battery_cell_voltages@[i]
                        .spec_is_valid(now)),
            },
    {
        let mut mn: u16 = u16::MAX;
        let mut mx: u16 = 0;
        let mut sum: u32 = 0;
        let mut count: usize = 0;
        let mut i: usize = 0;
        while i < CELL_COUNT
            invariant
                i <= CELL_COUNT,
                sum == spec_cell_sum(self.battery_cell_voltages, now, i as int),
                count == spec_cell_count(self.battery_cell_voltages, now, i as int),
                0 <= count <= i,
                sum <= 65535 * (i as int),
                count == 0 ==> mn == u16::MAX && mx == 0,
                count == 0 ==> forall|j: int|
                    0 <= j < i ==> !(#[trigger] self.battery_cell_voltages@[j].spec_is_valid(now)),
                count > 0 ==> exists|j: int|
                    0 <= j < i && self.battery_cell_voltages@[j].spec_get(now) == Some(mn),
                count > 0 ==> exists|j: int|
                    0 <= j < i && self.battery_cell_voltages@[j].spec_get(now) == Some(mx),
                forall|j: int|
                    0 <= j < i && self.battery_cell_voltages@[j].spec_is_valid(now) ==> mn
                        <= #[trigger] self.battery_cell_voltages@[j].value->0 <= mx,
            decreases CELL_COUNT - i,
        {
            let cell = self.battery_cell_voltages[i];
            match cell.get(now) {
                Some(mv) => {
                    let mv = *mv;
                    if count == 0 || mv < mn {
                        mn = mv;
                    }
                    if count == 0 || mv > mx {
                        mx = mv;
                    }
                    sum = sum + mv as u32;
                    count = count + 1;
                },
                None => {},
            }
            i = i + 1;
        }
        if count == 0 {
            None
        } else {
            Some((mn, mx, sum, count))
        }
    }
}

/// Unfold the front-to-back refresh of four cells into its four steps.
proof fn lemma_cells_set_unfold4<T, const N: usize>(
    a: [DisplayValue<T>; N],
    vals: [T; 4],
    now: u64,
)
    ensures
        spec_cells_set(a, 0, vals@, now) == spec_cell_set(
            spec_cell_set(
                spec_cell_set(spec_cell_set(a, 0, vals@[0], now), 1, vals@[1], now),
                2,
                vals@[2],
                now,
            ),
            3,
            vals@[3],
            now,
        ),
{
    reveal_with_fuel(spec_cells_set, 6);
    let s = vals@;
    assert(s.drop_first().drop_first().drop_first().drop_first().len() == 0);
    assert(s.drop_first()[0] == s[1]);
    assert(s.drop_first().drop_first()[0] == s[2]);
    assert(s.drop_first().drop_first().drop_first()[0] == s[3]);
}

/// Mapping law: ingesting a channel-power message whose controller and
/// channel stand in the lookup table refreshes exactly the mapped panel's
/// cell with the message's voltage and current; every other panel keeps its
/// cell, and a pair outside the table leaves the whole snapshot unchanged.
pub proof fn lemma_mppt_mapping(d: DisplayData, mppt_id: u8, cp: MpptChannelPower, now: u64)
    ensures
        ({
            let d1 = spec_ingest(
                d,
                EoiCanData::Mppt(MpptData { mppt_id, info: MpptInfo::MpptChannelPower(cp) }),
                now,
            );
            match spec_mppt_panel_index(mppt_id, cp.mppt_channel) {
                Some(i) => {
                    &&& d1.mppt_panel_info[i as int] == d.mppt_panel_info[i as int].spec_update(
                        MpptPanelInfo {
                            voltage_in_bits: cp.voltage_in_bits,
                            current_in_bits: cp.current_in_bits,
                        },
                        now,
                    )
                    &&& d1.mppt_panel_info[i as int].spec_get(now) == Some(
                        MpptPanelInfo {
                            voltage_in_bits: cp.voltage_in_bits,
                            current_in_bits: cp.current_in_bits,
                        },
                    )
                    &&& forall|j: int|
                        0 <= j < PANEL_COUNT && j != i ==> d1.mppt_panel_info[j]
                            == d.mppt_panel_info[j]
                },
                None => d1 == d,
            }
        }),
{
}

} // verus!
