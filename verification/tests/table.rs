use iot_device::table::scale_reading;
use iot_device::table::Quantity;
use iot_device::table::ResultTable;

#[test]
fn table_starts_all_zero() {
    let table = ResultTable::default();
    assert_eq!(table.dht22_temp, 0);
    assert_eq!(table.dht22_humidity, 0);
    assert_eq!(table.aht20_temp, 0);
    assert_eq!(table.aht20_humidity, 0);
    assert_eq!(table.bmp280_temp, 0);
    assert_eq!(table.bmp280_pressure, 0);
    assert!(!table.demo_switch);
}

#[test]
fn successful_read_scales_and_failed_read_keeps_stale_value() {
    // Raw 23500 under divisor 1000 is 23.5 units, stored as 23500 thousandths.
    let mut table = ResultTable::default();
    table.record(Quantity::Aht20Temperature, Some(23500), 1000);
    assert_eq!(table.aht20_temp, 23_500);
    assert_eq!(table.aht20_temp as f64 / 1000.0, 23.5);
    // The next read fails: the field keeps its last good value.
    table.record(Quantity::Aht20Temperature, None, 1000);
    assert_eq!(table.aht20_temp, 23_500);
}

#[test]
fn record_touches_only_its_field() {
    let mut table = ResultTable::default();
    table.record(Quantity::Bmp280Pressure, Some(101_300), 1000);
    assert_eq!(table.bmp280_pressure, 101_300);
    assert_eq!(table.bmp280_temp, 0);
    assert_eq!(table.aht20_temp, 0);
    assert_eq!(table.dht22_temp, 0);
    assert_eq!(table.dht22_humidity, 0);
    assert_eq!(table.aht20_humidity, 0);
    assert!(!table.demo_switch);
}

#[test]
fn scaling_is_raw_over_divisor_in_thousandths() {
    assert_eq!(scale_reading(23500, 1000), 23_500);
    // 235 tenth-units under divisor 10 are the same 23.5 units.
    assert_eq!(scale_reading(235, 10), 23_500);
    assert_eq!(scale_reading(-1234, 1000), -1234);
    // Truncation is toward zero on both signs.
    assert_eq!(scale_reading(7, 3), 2333);
    assert_eq!(scale_reading(-7, 3), -2333);
    assert_eq!(scale_reading(0, 7), 0);
}

#[test]
fn display_averages_follow_the_table() {
    let mut table = ResultTable::default();
    table.record(Quantity::Aht20Temperature, Some(20_000), 1000);
    table.record(Quantity::Bmp280Temperature, Some(21_000), 1000);
    table.record(Quantity::Dht22Temperature, Some(22_000), 1000);
    assert_eq!(table.average_temperature_milli(), 21_000);
    table.record(Quantity::Aht20Humidity, Some(40_000), 1000);
    table.record(Quantity::Dht22Humidity, Some(45_000), 1000);
    assert_eq!(table.average_humidity_milli(), 42_500);
}

#[test]
fn display_averages_truncate_toward_zero() {
    let mut table = ResultTable::default();
    table.record(Quantity::Aht20Humidity, Some(-5), 1000);
    table.record(Quantity::Dht22Humidity, Some(4), 1000);
    assert_eq!(table.average_humidity_milli(), 0);
}
