use battop::{BatterySnapshot, BatteryState, Config, DeviceView, Temperature, Units};

fn base_snapshot() -> BatterySnapshot {
    BatterySnapshot {
        state: BatteryState::Unknown,
        vendor: None,
        model: None,
        serial_number: None,
        charge: 0,
        health: 0,
        cycle_count: None,
        voltage: 0,
        energy_rate: 0,
        temperature: None,
        time_to_full: None,
        time_to_empty: None,
    }
}

#[test]
fn title_prefers_model_then_vendor_then_serial() {
    let config = Config::new(0, 1, Units::Human);
    let mut snap = base_snapshot();
    snap.model = Some("PrimeCell".to_string());
    snap.vendor = Some("ACME".to_string());
    snap.serial_number = Some("SN-9".to_string());
    assert_eq!(DeviceView::new(config, snap.clone()).title(), "PrimeCell");
    snap.model = None;
    assert_eq!(DeviceView::new(config, snap.clone()).title(), "ACME");
    snap.vendor = None;
    assert_eq!(DeviceView::new(config, snap.clone()).title(), "SN-9");
    snap.serial_number = None;
    assert_eq!(DeviceView::new(config, snap).title(), "Unknown battery");
}

#[test]
fn update_pushes_voltage_and_rate_and_stores_the_snapshot() {
    let config = Config::new(0, 1, Units::Human);
    let mut view = DeviceView::new(config, base_snapshot());
    let mut snap = base_snapshot();
    snap.state = BatteryState::Charging;
    snap.voltage = 1184;
    snap.energy_rate = 2207;
    view.update(snap);
    assert_eq!(view.voltage().current(), "11.84 V");
    assert_eq!(view.energy_rate().current(), "22.07 W");
    assert_eq!(view.energy_rate().title(), "Charging with");
    assert_eq!(view.battery().state, BatteryState::Charging);
    assert_eq!(view.temperature().current(), "NOT AVAILABLE");
}

#[test]
fn temperature_unit_follows_the_configuration() {
    let reading = Temperature { celsius: 2500, kelvin: 29815 };
    let mut snap = base_snapshot();
    snap.temperature = Some(reading);

    let mut human = DeviceView::new(Config::new(0, 1, Units::Human), base_snapshot());
    human.update(snap.clone());
    assert_eq!(human.temperature().current(), "25.00 °C");
    assert_eq!(human.temperature().points()[0].1, 2500);

    let mut si = DeviceView::new(Config::new(0, 1, Units::Si), base_snapshot());
    si.update(snap);
    assert_eq!(si.temperature().current(), "298.15 K");
    assert_eq!(si.temperature().points()[0].1, 29815);
}

#[test]
fn config_accessor_returns_the_creation_config() {
    let config = Config::new(2, 7, Units::Si);
    let view = DeviceView::new(config, base_snapshot());
    assert_eq!(view.config().delay(), 7);
    assert_eq!(view.config().verbosity(), 2);
    assert_eq!(view.config().units(), Units::Si);
}
