use can_telemetry::can_frame::CanFrame;
use can_telemetry::can_frame::CanId;
use can_telemetry::collector::CanCollector;
use can_telemetry::pipeline::ingest_collected_frames;
use can_telemetry::snapshot::DisplayData;

const NOW: u64 = 50_000;

fn std_frame(id: u16, data: &[u8]) -> CanFrame {
    CanFrame::from_encoded(CanId::standard(id).unwrap(), data)
}

/// The net-power reading as the renderer computes it: stale inputs poison
/// the result to NaN instead of freezing it.
fn net_power(data: &DisplayData, now: u64) -> f32 {
    let voltage = data
        .battery_voltage
        .get(now)
        .map_or(f32::NAN, |&mv| mv as f32 / 1000.0);
    let current = data
        .battery_current_in
        .get(now)
        .map_or(f32::NAN, |&b| f32::from_bits(b))
        + data
            .battery_current_out_motor
            .get(now)
            .map_or(f32::NAN, |&b| f32::from_bits(b))
        + data
            .battery_current_out_peripherals
            .get(now)
            .map_or(f32::NAN, |&b| f32::from_bits(b));
    voltage * current
}

#[test]
fn battery_sequence_end_to_end() {
    let mut collector = CanCollector::new();
    let mut data = DisplayData::default();

    collector.insert(std_frame(0x100, &0x5817DA41EBF577BE_u64.to_be_bytes()));
    collector.insert(std_frame(0x101, &0xE89F1F4150378C41_u64.to_be_bytes()));
    collector.insert(std_frame(0x102, &0x2526000000000000_u64.to_be_bytes()));
    ingest_collected_frames(&mut collector, &mut data, NOW);

    assert_eq!(collector.iter().len(), 0);
    assert_eq!(collector.get_dropped_frames(), 0);

    assert_eq!(data.battery_state_of_charge.get(NOW), Some(&9765));
    let charge = f32::from_bits(*data.battery_current_in.get(NOW).unwrap());
    let discharge = f32::from_bits(*data.battery_current_out_motor.get(NOW).unwrap());
    let perri = f32::from_bits(*data.battery_current_out_peripherals.get(NOW).unwrap());
    assert!((charge - 9.9765).abs() < 0.0001);
    assert!((discharge - -17.5270).abs() < 0.0001);
    assert!((perri - -0.2421).abs() < 0.0001);

    // No pack-voltage frame arrived yet, so the absent voltage poisons the
    // derived net power to NaN.
    assert!(net_power(&data, NOW).is_nan());

    // Once the pack voltage arrives the net power becomes the arithmetic
    // combination of the three currents and the voltage.
    collector.insert(std_frame(0x106, &0x39103110C0DA0EE2_u64.to_be_bytes()));
    ingest_collected_frames(&mut collector, &mut data, NOW);
    let power = net_power(&data, NOW);
    let expected = (charge + discharge + perri) * 56.0;
    assert!((power - expected).abs() < 0.001);
    assert!((power - -436.3856).abs() < 0.01);
}

#[test]
fn collector_coalesces_before_the_consumer_drains() {
    let mut collector = CanCollector::new();
    let mut data = DisplayData::default();

    // Two state-of-charge frames in one burst: the second supersedes the
    // first before the consumer ever decodes it.
    collector.insert(std_frame(0x102, &0x2526000000000000_u64.to_be_bytes()));
    collector.insert(std_frame(0x102, &[0x10, 0x27, 0, 0, 0, 0, 0, 0]));
    assert_eq!(collector.iter().len(), 1);
    assert_eq!(collector.get_dropped_frames(), 1);

    ingest_collected_frames(&mut collector, &mut data, NOW);
    assert_eq!(data.battery_state_of_charge.get(NOW), Some(&10000));
    assert_eq!(collector.iter().len(), 0);
    assert_eq!(collector.get_dropped_frames(), 0);
}

#[test]
fn unrecognized_frames_are_skipped_not_fatal() {
    let mut collector = CanCollector::new();
    let mut data = DisplayData::default();

    collector.insert(std_frame(0x6FF, &[1, 2, 3]));
    collector.insert(std_frame(0x108, &0x6CB0223B_u32.to_be_bytes()));
    collector.insert(std_frame(0x108, &[1])); // truncated: unrecognized
    ingest_collected_frames(&mut collector, &mut data, NOW);

    // The truncated uptime frame superseded the good one in the collector,
    // so no uptime survives; the unknown identifier was simply skipped.
    assert_eq!(data.battery_uptime_ms.get(NOW), None);
    assert_eq!(collector.iter().len(), 0);

    collector.insert(std_frame(0x108, &0x6CB0223B_u32.to_be_bytes()));
    ingest_collected_frames(&mut collector, &mut data, NOW);
    assert_eq!(data.battery_uptime_ms.get(NOW), Some(&992129132));
}
