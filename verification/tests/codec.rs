use can_telemetry::can_frame::CanFrame;
use can_telemetry::can_frame::CanId;
use can_telemetry::codec::parse_eoi_can_data;
use can_telemetry::codec::EoiBattery;
use can_telemetry::codec::EoiCanData;
use can_telemetry::codec::GnssData;
use can_telemetry::codec::MpptInfo;
use can_telemetry::codec::ThrottleControlType;
use can_telemetry::codec::ThrottleData;
use can_telemetry::codec::VescData;

const PERRI_CURRENT: f32 = -0.2421;
const CHARGE_CURRENT: f32 = 9.9765;
const DISCHARGE_CURRENT: f32 = -17.5270;

// This combination seems a bit odd (the discharge current enters with the
// opposite sign), but it is what the captured test data holds.
const PACK_CURRENT: f32 = CHARGE_CURRENT - DISCHARGE_CURRENT + PERRI_CURRENT;

fn frame(id: u32, data: &[u8]) -> CanFrame {
    CanFrame::from_encoded(CanId::from_raw(id).unwrap(), data)
}

#[test]
fn pack_and_perri_current() {
    let can_frame = frame(0x100, &0x5817DA41EBF577BE_u64.to_be_bytes());

    let data = parse_eoi_can_data(&can_frame).unwrap();
    let data = if let EoiCanData::EoiBattery(EoiBattery::PackAndPerriCurrent(data)) = data {
        data
    } else {
        panic!("Unexpected data type");
    };
    assert!((f32::from_bits(data.pack_current_bits) - PACK_CURRENT).abs() < 0.0001);
    assert!((f32::from_bits(data.perri_current_bits) - PERRI_CURRENT).abs() < 0.0001);
}

#[test]
fn charge_and_discharge_current() {
    let can_frame = frame(0x101, &0xE89F1F4150378C41_u64.to_be_bytes());

    let data = parse_eoi_can_data(&can_frame).unwrap();
    let data = if let EoiCanData::EoiBattery(EoiBattery::ChargeAndDischargeCurrent(data)) = data {
        data
    } else {
        panic!("Unexpected data type");
    };
    assert!((f32::from_bits(data.discharge_current_bits) - DISCHARGE_CURRENT).abs() < 0.0001);
    assert!((f32::from_bits(data.charge_current_bits) - CHARGE_CURRENT).abs() < 0.0001);
}

#[test]
fn soc_error_flags_and_balancing() {
    let can_frame = frame(0x102, &0x2526000000000000_u64.to_be_bytes());

    let data = parse_eoi_can_data(&can_frame).unwrap();
    let data = if let EoiCanData::EoiBattery(EoiBattery::SocErrorFlagsAndBalancing(data)) = data {
        data
    } else {
        panic!("Unexpected data type");
    };
    assert!(data.state_of_charge == 9765);
    assert!(data.state_of_charge as f32 / 100.0 == 97.65);
    assert!(data.error_flags == 0);
    assert!(data.balancing_status == 0);
}

#[test]
fn cell_voltages_1_4() {
    let can_frame = frame(0x103, &0x36102C102D103710_u64.to_be_bytes());

    let data = parse_eoi_can_data(&can_frame).unwrap();
    let data = if let EoiCanData::EoiBattery(EoiBattery::CellVoltages1_4(data)) = data {
        data
    } else {
        panic!("Unexpected data type");
    };
    assert!(data.cell_voltage[0] as f32 / 1000.0 == 4.150);
    assert!(data.cell_voltage[1] as f32 / 1000.0 == 4.140);
    assert!(data.cell_voltage[2] as f32 / 1000.0 == 4.141);
    assert!(data.cell_voltage[3] as f32 / 1000.0 == 4.151);
}

#[test]
fn cell_voltages_5_8() {
    let can_frame = frame(0x104, &0x34103A1030103410_u64.to_be_bytes());

    let data = parse_eoi_can_data(&can_frame).unwrap();
    let data = if let EoiCanData::EoiBattery(EoiBattery::CellVoltages5_8(data)) = data {
        data
    } else {
        panic!("Unexpected data type");
    };
    assert!(data.cell_voltage[0] as f32 / 1000.0 == 4.148);
    assert!(data.cell_voltage[1] as f32 / 1000.0 == 4.154);
    assert!(data.cell_voltage[2] as f32 / 1000.0 == 4.144);
    assert!(data.cell_voltage[3] as f32 / 1000.0 == 4.148);
}

#[test]
fn cell_voltages_9_12() {
    let can_frame = frame(0x105, &0x3810391038103410_u64.to_be_bytes());

    let data = parse_eoi_can_data(&can_frame).unwrap();
    let data = if let EoiCanData::EoiBattery(EoiBattery::CellVoltages9_12(data)) = data {
        data
    } else {
        panic!("Unexpected data type");
    };
    assert!(data.cell_voltage[0] as f32 / 1000.0 == 4.152);
    assert!(data.cell_voltage[1] as f32 / 1000.0 == 4.153);
    assert!(data.cell_voltage[2] as f32 / 1000.0 == 4.152);
    assert!(data.cell_voltage[3] as f32 / 1000.0 == 4.148);
}

#[test]
fn cell_voltages_13_14_pack_and_stack() {
    let can_frame = frame(0x106, &0x39103110C0DA0EE2_u64.to_be_bytes());

    let data = parse_eoi_can_data(&can_frame).unwrap();
    let data =
        if let EoiCanData::EoiBattery(EoiBattery::CellVoltages13_14PackAndStack(data)) = data {
            data
        } else {
            panic!("Unexpected data type");
        };
    assert!(data.cell_voltage[0] as f32 / 1000.0 == 4.153);
    assert!(data.cell_voltage[1] as f32 / 1000.0 == 4.145);
    assert!(data.pack_voltage as f32 / 1000.0 == 56.0);
    assert!(data.stack_voltage as f32 / 1000.0 == 57.87);
}

#[test]
fn temperatures_and_states() {
    let can_frame = frame(0x107, &0x2424262836060303_u64.to_be_bytes());

    let data = parse_eoi_can_data(&can_frame).unwrap();
    let data = if let EoiCanData::EoiBattery(EoiBattery::TemperaturesAndStates(data)) = data {
        data
    } else {
        panic!("Unexpected data type");
    };
    assert!(data.temperatures[0] == 36);
    assert!(data.temperatures[1] == 36);
    assert!(data.temperatures[2] == 38);
    assert!(data.temperatures[3] == 40);
    assert!(data.ic_temperature == 54);
    assert!(data.battery_state == 6);
    assert!(data.charge_state == 3);
    assert!(data.discharge_state == 3);
}

#[test]
fn battery_uptime() {
    let can_frame = frame(0x108, &0x6CB0223B_u32.to_be_bytes());

    let data = parse_eoi_can_data(&can_frame).unwrap();
    let data = if let EoiCanData::EoiBattery(EoiBattery::BatteryUptime(data)) = data {
        data
    } else {
        panic!("Unexpected data type");
    };
    assert!(data.uptime_ms == 992129132);
}

#[test]
fn gnss_status_and_datetime() {
    let f = frame(0x200, &[1, 9, 7]);
    let data = parse_eoi_can_data(&f).unwrap();
    let status = if let EoiCanData::Gnss(GnssData::GnssStatus(s)) = data {
        s
    } else {
        panic!("Unexpected data type");
    };
    assert_eq!(status.fix, 1);
    assert_eq!(status.sats, 9);
    assert_eq!(status.sats_used, 7);

    let f = frame(0x204, &[0xE9, 0x07, 6, 21, 13, 37, 59, 0]);
    let data = parse_eoi_can_data(&f).unwrap();
    let dt = if let EoiCanData::Gnss(GnssData::GnssDateTime(dt)) = data {
        dt
    } else {
        panic!("Unexpected data type");
    };
    assert_eq!(dt.year, 2025);
    assert_eq!(dt.month, 6);
    assert_eq!(dt.day, 21);
    assert_eq!(dt.hours, 13);
    assert_eq!(dt.minutes, 37);
    assert_eq!(dt.seconds, 59);
}

#[test]
fn gnss_speed_heading_latitude_longitude() {
    let mut payload = [0u8; 8];
    payload[0..4].copy_from_slice(&42.5f32.to_le_bytes());
    payload[4..8].copy_from_slice(&181.25f32.to_le_bytes());
    let data = parse_eoi_can_data(&frame(0x201, &payload)).unwrap();
    let (speed_bits, heading_bits) =
        if let EoiCanData::Gnss(GnssData::GnssSpeedAndHeading(s, h)) = data {
            (s, h)
        } else {
            panic!("Unexpected data type");
        };
    assert_eq!(f32::from_bits(speed_bits), 42.5);
    assert_eq!(f32::from_bits(heading_bits), 181.25);

    let data = parse_eoi_can_data(&frame(0x202, &52.372_f64.to_le_bytes())).unwrap();
    let lat = if let EoiCanData::Gnss(GnssData::GnssLatitude(l)) = data {
        l
    } else {
        panic!("Unexpected data type");
    };
    assert_eq!(f64::from_bits(lat), 52.372);

    let data = parse_eoi_can_data(&frame(0x203, &4.894_f64.to_le_bytes())).unwrap();
    let lon = if let EoiCanData::Gnss(GnssData::GnssLongitude(l)) = data {
        l
    } else {
        panic!("Unexpected data type");
    };
    assert_eq!(f64::from_bits(lon), 4.894);
}

#[test]
fn mppt_channel_power_message() {
    // Controller 2, info field 4: power of channel 2.
    let mut payload = [0u8; 8];
    payload[0..4].copy_from_slice(&18.0f32.to_le_bytes());
    payload[4..8].copy_from_slice(&2.5f32.to_le_bytes());
    let data = parse_eoi_can_data(&frame(0x724, &payload)).unwrap();
    let mppt = if let EoiCanData::Mppt(m) = data {
        m
    } else {
        panic!("Unexpected data type");
    };
    assert_eq!(mppt.mppt_id, 2);
    let power = if let MpptInfo::MpptChannelPower(p) = mppt.info {
        p
    } else {
        panic!("Unexpected info kind");
    };
    assert_eq!(power.mppt_channel, 2);
    assert_eq!(f32::from_bits(power.voltage_in_bits), 18.0);
    assert_eq!(f32::from_bits(power.current_in_bits), 2.5);
}

#[test]
fn mppt_channel_state_message() {
    // Controller 5, info field 3: state of channel 1.
    let data = parse_eoi_can_data(&frame(0x753, &[0x10, 0x27, 2, 7, 1])).unwrap();
    let mppt = if let EoiCanData::Mppt(m) = data {
        m
    } else {
        panic!("Unexpected data type");
    };
    assert_eq!(mppt.mppt_id, 5);
    let state = if let MpptInfo::MpptChannelState(s) = mppt.info {
        s
    } else {
        panic!("Unexpected info kind");
    };
    assert_eq!(state.mppt_channel, 1);
    assert_eq!(state.duty_cycle, 10000);
    assert_eq!(state.algorithm, 2);
    assert_eq!(state.algorithm_state, 7);
    assert!(state.channel_active);
}

#[test]
fn mppt_power_and_status_messages() {
    // Controller 6, info field 8: aggregate output power.
    let mut payload = [0u8; 8];
    payload[0..4].copy_from_slice(&96.0f32.to_le_bytes());
    payload[4..8].copy_from_slice(&1.75f32.to_le_bytes());
    let data = parse_eoi_can_data(&frame(0x768, &payload)).unwrap();
    let mppt = if let EoiCanData::Mppt(m) = data {
        m
    } else {
        panic!("Unexpected data type");
    };
    assert_eq!(mppt.mppt_id, 6);
    let power = if let MpptInfo::MpptPower(p) = mppt.info {
        p
    } else {
        panic!("Unexpected info kind");
    };
    assert_eq!(f32::from_bits(power.voltage_out_bits), 96.0);
    assert_eq!(f32::from_bits(power.current_out_bits), 1.75);

    // Controller 6, info field 9: temperature and switch state. The last
    // byte packs the PWM flag in bit 0 and the switch flag in bit 1.
    let mut payload = [0u8; 8];
    payload[0..4].copy_from_slice(&95.5f32.to_le_bytes());
    payload[4..6].copy_from_slice(&(-12i16).to_le_bytes());
    payload[6] = 4;
    payload[7] = 0b10;
    let data = parse_eoi_can_data(&frame(0x769, &payload)).unwrap();
    let mppt = if let EoiCanData::Mppt(m) = data {
        m
    } else {
        panic!("Unexpected data type");
    };
    let status = if let MpptInfo::MpptStatus(s) = mppt.info {
        s
    } else {
        panic!("Unexpected info kind");
    };
    assert_eq!(f32::from_bits(status.voltage_out_switch_bits), 95.5);
    assert_eq!(status.temperature, -12);
    assert_eq!(status.state, 4);
    assert!(!status.pwm_enabled);
    assert!(status.switch_on);
}

#[test]
fn mppt_unknown_info_fields_are_ignored() {
    for field in 10u32..16 {
        let f = frame(0x720 + field, &[0u8; 8]);
        assert!(parse_eoi_can_data(&f).is_none());
    }
}

#[test]
fn vesc_status_messages() {
    // Status message 1: big-endian rpm, current in tenths, duty in tenths.
    let mut payload = [0u8; 8];
    payload[0..4].copy_from_slice(&1234i32.to_be_bytes());
    payload[4..6].copy_from_slice(&(-152i16).to_be_bytes());
    payload[6..8].copy_from_slice(&998i16.to_be_bytes());
    let data = parse_eoi_can_data(&frame(0x0909, &payload)).unwrap();
    match data {
        EoiCanData::Vesc(VescData::StatusMessage1 { rpm, total_current, duty_cycle }) => {
            assert_eq!(rpm, 1234);
            assert_eq!(total_current, -152);
            assert_eq!(total_current as f32 / 10.0, -15.2);
            assert_eq!(duty_cycle, 998);
        }
        _ => panic!("Unexpected data type"),
    }

    let mut payload = [0u8; 8];
    payload[0..4].copy_from_slice(&123456u32.to_be_bytes());
    payload[4..8].copy_from_slice(&654321u32.to_be_bytes());
    match parse_eoi_can_data(&frame(0x0E09, &payload)).unwrap() {
        EoiCanData::Vesc(VescData::StatusMessage2 { amp_hours_used, amp_hours_generated }) => {
            assert_eq!(amp_hours_used, 123456);
            assert_eq!(amp_hours_generated, 654321);
        }
        _ => panic!("Unexpected data type"),
    }
    match parse_eoi_can_data(&frame(0x0F09, &payload)).unwrap() {
        EoiCanData::Vesc(VescData::StatusMessage3 { watt_hours_used, watt_hours_generated }) => {
            assert_eq!(watt_hours_used, 123456);
            assert_eq!(watt_hours_generated, 654321);
        }
        _ => panic!("Unexpected data type"),
    }

    let mut payload = [0u8; 8];
    payload[0..2].copy_from_slice(&451i16.to_be_bytes());
    payload[2..4].copy_from_slice(&362i16.to_be_bytes());
    payload[4..6].copy_from_slice(&(-77i16).to_be_bytes());
    payload[6..8].copy_from_slice(&100i16.to_be_bytes());
    match parse_eoi_can_data(&frame(0x1009, &payload)).unwrap() {
        EoiCanData::Vesc(VescData::StatusMessage4 {
            fet_temp,
            motor_temp,
            total_input_current,
            current_pid_position,
        }) => {
            assert_eq!(fet_temp, 451);
            assert_eq!(motor_temp, 362);
            assert_eq!(total_input_current, -77);
            assert_eq!(current_pid_position, 100);
            assert_eq!(current_pid_position as f32 / 50.0, 2.0);
        }
        _ => panic!("Unexpected data type"),
    }

    let mut payload = [0u8; 6];
    payload[0..4].copy_from_slice(&(-987654i32).to_be_bytes());
    payload[4..6].copy_from_slice(&529i16.to_be_bytes());
    match parse_eoi_can_data(&frame(0x1B09, &payload)).unwrap() {
        EoiCanData::Vesc(VescData::StatusMessage5 { input_voltage, tachometer }) => {
            assert_eq!(input_voltage, 529);
            assert_eq!(input_voltage as f32 / 10.0, 52.9);
            assert_eq!(tachometer, -987654);
        }
        _ => panic!("Unexpected data type"),
    }
}

#[test]
fn throttle_to_vesc_messages() {
    let payload = 1500i32.to_be_bytes();
    match parse_eoi_can_data(&frame(0x0009, &payload)).unwrap() {
        EoiCanData::Throttle(ThrottleData::ToVescDutyCycle(v)) => {
            assert_eq!(v, 1500);
            assert_eq!(v as f32 / 1000.0, 1.5);
        }
        _ => panic!("Unexpected data type"),
    }
    match parse_eoi_can_data(&frame(0x0109, &payload)).unwrap() {
        EoiCanData::Throttle(ThrottleData::ToVescCurrent(v)) => assert_eq!(v, 1500),
        _ => panic!("Unexpected data type"),
    }
    match parse_eoi_can_data(&frame(0x0309, &payload)).unwrap() {
        EoiCanData::Throttle(ThrottleData::ToVescRpm(v)) => assert_eq!(v, 1500),
        _ => panic!("Unexpected data type"),
    }
}

#[test]
fn throttle_status_eight_bytes() {
    // Error byte 0b1011_0101: TWI code 5, EEPROM missing, gain invalid,
    // impedance high.
    let mut payload = [0u8; 8];
    payload[0..2].copy_from_slice(&256i16.to_be_bytes());
    payload[2..4].copy_from_slice(&(-3i16).to_be_bytes());
    payload[4..6].copy_from_slice(&512i16.to_be_bytes());
    payload[6] = 17;
    payload[7] = 0b1011_0101;
    let data = parse_eoi_can_data(&frame(0x1337, &payload)).unwrap();
    let status = if let EoiCanData::Throttle(ThrottleData::Status(s)) = data {
        s
    } else {
        panic!("Unexpected data type");
    };
    assert_eq!(status.value, 256);
    assert_eq!((status.value as f32 / 512.0) * 100.0, 50.0);
    assert_eq!(status.raw_angle, -3);
    assert_eq!(status.raw_deadmen, 512);
    assert_eq!(status.gain, 17);
    assert!(status.error_any);
    assert_eq!(status.error_twi, 5);
    assert!(!status.error_no_eeprom);
    assert!(status.error_gain_clipping);
    assert!(status.error_gain_invalid);
    assert!(!status.error_deadman_missing);
    assert!(status.error_impedance_high);
}

#[test]
fn throttle_config_six_bytes() {
    let payload = [3u8, 0, 1, 44, 254, 212];
    let data = parse_eoi_can_data(&frame(0x0337, &payload)).unwrap();
    let config = if let EoiCanData::Throttle(ThrottleData::Config(c)) = data {
        c
    } else {
        panic!("Unexpected data type");
    };
    assert!(matches!(config.control_type, ThrottleControlType::Rpm));
    assert_eq!(config.lever_forward, 300);
    assert_eq!(config.lever_backward, -300);

    // A control-type byte outside the known range maps to Unknown, never to
    // a decode failure.
    let payload = [99u8, 0, 0, 0, 0, 0];
    let data = parse_eoi_can_data(&frame(0x1337, &payload)).unwrap();
    let config = if let EoiCanData::Throttle(ThrottleData::Config(c)) = data {
        c
    } else {
        panic!("Unexpected data type");
    };
    assert!(matches!(config.control_type, ThrottleControlType::Unknown));
}

#[test]
fn throttle_status_config_other_lengths_unrecognized() {
    for len in [0usize, 1, 2, 3, 4, 5, 7] {
        let payload = vec![0u8; len];
        assert!(parse_eoi_can_data(&frame(0x1337, &payload)).is_none());
        assert!(parse_eoi_can_data(&frame(0x0337, &payload)).is_none());
    }
}

#[test]
fn truncated_payloads_are_unrecognized() {
    for id in [
        0x100u32, 0x101, 0x102, 0x103, 0x104, 0x105, 0x106, 0x107, 0x201, 0x202, 0x203, 0x0909,
        0x0E09, 0x0F09, 0x1009,
    ] {
        let f = frame(id, &[0u8; 7]);
        assert!(parse_eoi_can_data(&f).is_none(), "id {:#x}", id);
    }
    assert!(parse_eoi_can_data(&frame(0x108, &[0u8; 3])).is_none());
    assert!(parse_eoi_can_data(&frame(0x200, &[0u8; 2])).is_none());
    assert!(parse_eoi_can_data(&frame(0x204, &[0u8; 6])).is_none());
    assert!(parse_eoi_can_data(&frame(0x1B09, &[0u8; 5])).is_none());
    assert!(parse_eoi_can_data(&frame(0x0009, &[0u8; 3])).is_none());
}

#[test]
fn unknown_identifiers_are_unrecognized() {
    for id in [0u32, 0x0FF, 0x10A, 0x205, 0x6FF, 0x77F, 0x7FF, 0x2000] {
        let f = frame(id, &[0u8; 8]);
        assert!(parse_eoi_can_data(&f).is_none(), "id {:#x}", id);
    }
    let f = CanFrame::from_encoded(CanId::extended(0x1FFFFFFF).unwrap(), &[0u8; 8]);
    assert!(parse_eoi_can_data(&f).is_none());
}

#[test]
fn decode_is_total_over_identifiers_and_lengths() {
    // Every standard identifier and a band of extended ones, with every
    // payload length a CAN 2.0 frame allows: decode always returns, with
    // Some or None, and never panics.
    let mut recognized = 0u32;
    for id in 0u32..=0x7FF {
        for len in 0usize..=8 {
            let payload = vec![0xA5u8; len];
            if parse_eoi_can_data(&frame(id, &payload)).is_some() {
                recognized += 1;
            }
        }
    }
    assert!(recognized > 0);
    for id in [0x800u32, 0x1337, 0x10000, 0x1FFFFFFF] {
        for len in 0usize..=8 {
            let payload = vec![0x5Au8; len];
            let f = CanFrame::from_encoded(CanId::extended(id).unwrap(), &payload);
            let _ = parse_eoi_can_data(&f);
        }
    }
}
