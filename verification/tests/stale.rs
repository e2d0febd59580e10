use can_telemetry::stale::DisplayValue;
use can_telemetry::stale::DISPLAY_VALUE_TIMEOUT_MS;

#[test]
fn update_then_get_returns_the_value() {
    let mut cell: DisplayValue<u16> = DisplayValue::default();
    cell.update(4150, 1_000);
    assert_eq!(cell.get(1_000), Some(&4150));
    assert!(cell.is_valid(1_000));

    // Still fresh one tick before the time to live elapses.
    assert_eq!(cell.get(1_000 + DISPLAY_VALUE_TIMEOUT_MS - 1), Some(&4150));
}

#[test]
fn value_expires_after_the_time_to_live() {
    let mut cell: DisplayValue<u16> = DisplayValue::default();
    cell.update(4150, 1_000);
    let expired = 1_000 + DISPLAY_VALUE_TIMEOUT_MS;
    assert_eq!(cell.get(expired), None);
    assert!(!cell.is_valid(expired));
    assert_eq!(cell.get(expired + 60_000), None);

    // A fresh update revives the cell.
    cell.update(4151, expired);
    assert_eq!(cell.get(expired), Some(&4151));
}

#[test]
fn default_cell_reports_nothing_at_any_time() {
    let cell: DisplayValue<bool> = DisplayValue::default();
    assert_eq!(cell.get(0), None);
    assert!(!cell.is_valid(0));
    assert_eq!(cell.get(u64::MAX), None);
    assert!(!cell.is_valid(u64::MAX));
}

#[test]
fn update_overwrites_without_comparison() {
    let mut cell: DisplayValue<i32> = DisplayValue::default();
    cell.update(10, 5_000);
    cell.update(-3, 5_001);
    assert_eq!(cell.get(5_001), Some(&-3));
}
