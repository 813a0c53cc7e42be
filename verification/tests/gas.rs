use native_bridge::gas::GasParameters;

fn prices(layout: u64, value: u64, per_byte_serialized: u64, failure: u64) -> GasParameters {
    GasParameters { layout, value, per_byte_serialized, failure }
}

#[test]
fn charge_is_flat_costs_plus_rate_times_bytes() {
    assert_eq!(prices(3, 5, 2, 7).serialization_charge(8), 3 + 5 + 8 * 2);
    assert_eq!(prices(100, 20, 36, 1102).serialization_charge(32), 100 + 20 + 32 * 36);
}

#[test]
fn charge_without_flat_costs_is_rate_times_bytes() {
    assert_eq!(prices(0, 0, 36, 1102).serialization_charge(8), 288);
    assert_eq!(prices(0, 0, 36, 1102).serialization_charge(1), 36);
}

#[test]
fn charge_for_no_bytes_is_the_flat_costs() {
    assert_eq!(prices(3, 5, 2, 7).serialization_charge(0), 8);
    assert_eq!(prices(0, 0, 2, 7).serialization_charge(0), 0);
}

#[test]
fn charge_at_rate_zero_is_the_flat_costs() {
    assert_eq!(prices(3, 5, 0, 7).serialization_charge(1_000_000), 8);
}

#[test]
fn charge_does_not_depend_on_the_failure_fee() {
    assert_eq!(prices(1, 2, 3, 0).serialization_charge(4), prices(1, 2, 3, 999).serialization_charge(4));
}

#[test]
fn charge_stops_at_the_largest_amount() {
    assert_eq!(prices(0, 0, u64::MAX, 0).serialization_charge(2), u64::MAX);
    assert_eq!(prices(u64::MAX, 1, 0, 0).serialization_charge(0), u64::MAX);
    assert_eq!(prices(1, 0, u64::MAX, 0).serialization_charge(1), u64::MAX);
    assert_eq!(prices(0, 0, u64::MAX / 2, 0).serialization_charge(2), u64::MAX - 1);
    assert_eq!(prices(1, 0, u64::MAX / 2, 0).serialization_charge(2), u64::MAX);
    assert_eq!(prices(1, 1, u64::MAX / 2, 0).serialization_charge(2), u64::MAX);
}
