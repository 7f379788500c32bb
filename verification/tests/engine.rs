use iot_device::engine::Engine;

#[test]
fn first_tick_fires_every_task() {
    let mut engine = Engine::new(0);
    let plan = engine.plan_tick(0);
    assert!(plan.read_dht22);
    assert!(plan.read_aht20);
    assert!(plan.read_bmp280);
    assert!(plan.print_table);
    assert!(plan.render_display);
    assert!(plan.send_telemetry);
}

#[test]
fn gates_keep_their_independent_cadences() {
    let mut engine = Engine::new(0);
    engine.plan_tick(0);

    // Two seconds in: nothing is due yet.
    let plan = engine.plan_tick(2000);
    assert!(!plan.read_dht22);
    assert!(!plan.read_aht20);
    assert!(!plan.read_bmp280);
    assert!(!plan.print_table);
    assert!(!plan.render_display);
    assert!(!plan.send_telemetry);

    // Six seconds in: the three 5 s sensor tasks fire, the rest wait.
    let plan = engine.plan_tick(6000);
    assert!(plan.read_dht22);
    assert!(plan.read_aht20);
    assert!(plan.read_bmp280);
    assert!(!plan.print_table);
    assert!(!plan.render_display);
    assert!(!plan.send_telemetry);

    // Eight seconds in: only the 8 s print task fires.
    let plan = engine.plan_tick(8000);
    assert!(!plan.read_dht22);
    assert!(plan.print_table);
    assert!(!plan.render_display);
    assert!(!plan.send_telemetry);

    // Sixteen seconds in: sensors (idle since 6 s), print (since 8 s),
    // display and publish (first cooldown over) all fire.
    let plan = engine.plan_tick(16000);
    assert!(plan.read_dht22);
    assert!(plan.read_aht20);
    assert!(plan.read_bmp280);
    assert!(plan.print_table);
    assert!(plan.render_display);
    assert!(plan.send_telemetry);
}

#[test]
fn dht22_texts_are_parsed_scaled_and_recorded() {
    let mut engine = Engine::new(0);
    engine.record_dht22(Some(b"23500\n"), Some(b"44100\n"));
    assert_eq!(engine.result_table.dht22_temp, 23_500);
    assert_eq!(engine.result_table.dht22_humidity, 44_100);

    // A missing file and an unparseable text both leave the fields stale.
    engine.record_dht22(None, Some(b"garbage"));
    assert_eq!(engine.result_table.dht22_temp, 23_500);
    assert_eq!(engine.result_table.dht22_humidity, 44_100);

    // A fresh good reading overwrites.
    engine.record_dht22(Some(b"-1500\n"), None);
    assert_eq!(engine.result_table.dht22_temp, -1500);
    assert_eq!(engine.result_table.dht22_humidity, 44_100);
}

#[test]
fn aht20_and_bmp280_measurements_are_recorded_as_pairs() {
    let mut engine = Engine::new(0);
    engine.record_aht20(Some((23_500, 44_100)));
    assert_eq!(engine.result_table.aht20_temp, 23_500);
    assert_eq!(engine.result_table.aht20_humidity, 44_100);
    engine.record_bmp280(Some((24_200, 101_300)));
    assert_eq!(engine.result_table.bmp280_temp, 24_200);
    assert_eq!(engine.result_table.bmp280_pressure, 101_300);

    // Failed measurements leave both fields of the pair.
    engine.record_aht20(None);
    engine.record_bmp280(None);
    assert_eq!(engine.result_table.aht20_temp, 23_500);
    assert_eq!(engine.result_table.aht20_humidity, 44_100);
    assert_eq!(engine.result_table.bmp280_temp, 24_200);
    assert_eq!(engine.result_table.bmp280_pressure, 101_300);
}

#[test]
fn snapshot_is_a_value_copy() {
    let mut engine = Engine::new(0);
    engine.record_aht20(Some((20_000, 50_000)));
    let snapshot = engine.snapshot();
    engine.record_aht20(Some((99_000, 99_000)));
    // The snapshot taken earlier is unaffected by later writes.
    assert_eq!(snapshot.aht20_temp, 20_000);
    assert_eq!(engine.result_table.aht20_temp, 99_000);
}
