use can_telemetry::can_frame::CanFrame;
use can_telemetry::can_frame::CanId;
use can_telemetry::collector::CanCollector;
use can_telemetry::collector::COLLECTOR_CAPACITY;

#[test]
fn test_can_collector() {
    let mut collector = CanCollector::new();
    let frame1 = CanFrame::from_encoded(CanId::extended(0x12345).unwrap(), &[0x01, 0x02, 0x03]);
    let frame1_mirrored =
        CanFrame::from_encoded(CanId::extended(0x12345).unwrap(), &[0x03, 0x02, 0x01]);
    let frame2 = CanFrame::from_encoded(CanId::extended(0x12346).unwrap(), &[0x01, 0x02, 0x03]);
    let frame2_mirrored =
        CanFrame::from_encoded(CanId::extended(0x12346).unwrap(), &[0x01, 0x02, 0x03]);

    assert!(collector.iter().len() == 0);
    assert!(collector.get_dropped_frames() == 0);

    collector.insert(frame1.clone());
    collector.insert(frame2.clone());

    assert!(collector.iter().len() == 2);
    assert!(collector.get_dropped_frames() == 0);

    collector.clear();
    assert!(collector.iter().len() == 0);

    collector.insert(frame1.clone());
    assert!(collector.iter().len() == 1);
    collector.insert(frame1.clone()); // Inserting the same frame again should not change the count
    assert!(collector.iter().len() == 1);
    collector.insert(frame2.clone());
    assert!(collector.iter().len() == 2);
    collector.insert(frame2.clone()); // Inserting the same frame again should not change the count
    assert!(collector.iter().len() == 2);
    assert!(collector.get_dropped_frames() == 2);

    collector.clear();
    assert!(collector.iter().len() == 0);
    collector.insert(frame1.clone());
    assert!(collector.iter().first() == Some(&frame1));
    collector.insert(frame1_mirrored.clone());
    assert!(collector.iter().first() == Some(&frame1_mirrored));
    assert!(collector.iter().len() == 1); // Should still be 1, as frame1_mirror replaces frame1
    collector.insert(frame2.clone());
    assert!(collector.iter().len() == 2);
    assert!(collector.iter().first() == Some(&frame1_mirrored));
    assert!(collector.iter().get(1) == Some(&frame2));
    collector.insert(frame2_mirrored.clone());
    assert!(collector.iter().len() == 2); // Should still be 2, as frame2_mirror replaces frame2
    assert!(collector.iter().first() == Some(&frame1_mirrored));
    assert!(collector.iter().get(1) == Some(&frame2_mirrored));
    assert!(collector.get_dropped_frames() == 2);
}

#[test]
fn capacity_eviction_is_oldest_first() {
    let mut collector = CanCollector::default();
    for i in 0..COLLECTOR_CAPACITY {
        let frame = CanFrame::from_encoded(CanId::extended(0x1000 + i as u32).unwrap(), &[i as u8]);
        collector.insert(frame);
    }
    assert_eq!(collector.iter().len(), COLLECTOR_CAPACITY);
    assert_eq!(collector.get_dropped_frames(), 0);

    // One more distinct identifier: the store stays full, the
    // oldest-inserted entry is gone, and one drop is counted.
    let extra = CanFrame::from_encoded(CanId::extended(0xFFFF).unwrap(), &[0xEE]);
    collector.insert(extra.clone());
    assert_eq!(collector.iter().len(), COLLECTOR_CAPACITY);
    assert!(collector.get_dropped_frames() >= 1);
    assert_eq!(collector.get_dropped_frames(), 1);
    assert!(!collector
        .iter()
        .iter()
        .any(|f| f.id == CanId::Extended(0x1000)));
    assert_eq!(collector.iter().last(), Some(&extra));
    assert_eq!(collector.iter().first().map(|f| f.id), Some(CanId::Extended(0x1001)));
}

#[test]
fn duplicate_inserts_count_each_superseded_frame() {
    let mut collector = CanCollector::new();
    let id = CanId::standard(0x102).unwrap();
    for round in 0..5u8 {
        collector.insert(CanFrame::from_encoded(id, &[round]));
    }
    assert_eq!(collector.iter().len(), 1);
    assert_eq!(collector.get_dropped_frames(), 4);
    // The last frame inserted is the one retrievable.
    assert_eq!(collector.iter().first().map(|f| f.data.clone()), Some(vec![4u8]));

    collector.clear();
    assert_eq!(collector.iter().len(), 0);
    assert_eq!(collector.get_dropped_frames(), 0);
}
