use battop::{BatteryState, ChartData, ChartType, Config, Units, RESOLUTION};

fn human_config() -> Config {
    Config::new(0, 1, Units::Human)
}

fn si_config() -> Config {
    Config::new(0, 1, Units::Si)
}

#[test]
fn titles_follow_type_and_state() {
    let config = human_config();
    let mut voltage = ChartData::new(config, ChartType::Voltage);
    assert_eq!(voltage.title(), "Voltage");
    voltage.set_battery_state(BatteryState::Charging);
    assert_eq!(voltage.title(), "Voltage");

    let mut rate = ChartData::new(config, ChartType::EnergyRate);
    assert_eq!(rate.title(), "Consumption");
    rate.set_battery_state(BatteryState::Charging);
    assert_eq!(rate.title(), "Charging with");
    rate.set_battery_state(BatteryState::Discharging);
    assert_eq!(rate.title(), "Discharging with");
    rate.set_battery_state(BatteryState::Full);
    assert_eq!(rate.title(), "Consumption");

    let temp = ChartData::new(config, ChartType::Temperature);
    assert_eq!(temp.title(), "Temperature");
}

#[test]
fn current_prints_two_decimals_with_unit() {
    let mut voltage = ChartData::new(human_config(), ChartType::Voltage);
    voltage.push(1234);
    assert_eq!(voltage.current(), "12.34 V");

    let mut rate = ChartData::new(human_config(), ChartType::EnergyRate);
    rate.push(905);
    assert_eq!(rate.current(), "9.05 W");

    let mut temp_c = ChartData::new(human_config(), ChartType::Temperature);
    temp_c.push(2550);
    assert_eq!(temp_c.current(), "25.50 °C");

    let mut temp_k = ChartData::new(si_config(), ChartType::Temperature);
    temp_k.push(29865);
    assert_eq!(temp_k.current(), "298.65 K");
}

#[test]
fn current_of_disabled_chart_is_a_sentinel() {
    let mut temp = ChartData::new(human_config(), ChartType::Temperature);
    temp.push(2000);
    temp.enabled(false);
    assert_eq!(temp.current(), "NOT AVAILABLE");
    temp.enabled(true);
    assert_eq!(temp.current(), "20.00 °C");
}

#[test]
fn x_bounds_cover_the_fixed_window() {
    let chart = ChartData::new(human_config(), ChartType::Voltage);
    assert_eq!(chart.x_bounds(), [0, RESOLUTION as u64]);
}

#[test]
fn y_axis_titles() {
    assert_eq!(ChartData::new(human_config(), ChartType::Voltage).y_title(), "V");
    assert_eq!(ChartData::new(human_config(), ChartType::EnergyRate).y_title(), "W");
    assert_eq!(ChartData::new(human_config(), ChartType::Temperature).y_title(), "°C");
    assert_eq!(ChartData::new(si_config(), ChartType::Temperature).y_title(), "K");
}

#[test]
fn y_bounds_pad_around_readings() {
    let mut chart = ChartData::new(human_config(), ChartType::Voltage);
    chart.push(4200);
    // min = max = 42.00: floor(41.00) = 41, ceil(43.00) = 43
    assert_eq!(chart.y_bounds(), [41, 43]);
    assert_eq!(chart.y_labels(), vec!["41".to_string(), "43".to_string()]);
}

#[test]
fn y_labels_pad_single_digits_to_width_two() {
    let mut chart = ChartData::new(human_config(), ChartType::Voltage);
    chart.push(500);
    assert_eq!(chart.y_bounds(), [4, 6]);
    assert_eq!(chart.y_labels(), vec![" 4".to_string(), " 6".to_string()]);
}

#[test]
fn y_bounds_of_negative_readings_follow_the_clamp() {
    let mut chart = ChartData::new(human_config(), ChartType::Temperature);
    chart.push(-300);
    // floor(-4.00) = -4, below zero, raised to -1; ceil(-2.00) = -2
    assert_eq!(chart.y_bounds(), [-1, -2]);
    assert_eq!(chart.y_labels(), vec!["-1".to_string(), "-2".to_string()]);
}

#[test]
fn y_bounds_of_disabled_chart_are_zero() {
    let mut temp = ChartData::new(human_config(), ChartType::Temperature);
    temp.push(2000);
    temp.enabled(false);
    assert_eq!(temp.y_bounds(), [0, 0]);
    assert_eq!(temp.y_labels(), vec![" 0".to_string(), " 0".to_string()]);
}

#[test]
fn y_bounds_before_any_push_use_the_starting_scalars() {
    // a fresh chart starts with min 100.00 and max 0.00 until the first
    // reading arrives
    let chart = ChartData::new(human_config(), ChartType::Voltage);
    assert_eq!(chart.y_bounds(), [99, 1]);
    assert_eq!(chart.y_labels(), vec!["99".to_string(), " 1".to_string()]);
}

#[test]
fn push_keeps_chart_settings() {
    let mut chart = ChartData::new(si_config(), ChartType::EnergyRate);
    chart.set_battery_state(BatteryState::Discharging);
    chart.push(150);
    assert_eq!(chart.battery_state(), BatteryState::Discharging);
    assert_eq!(chart.title(), "Discharging with");
    assert_eq!(chart.points().len(), 1);
    assert_eq!(chart.points()[0], (RESOLUTION as u64, 150));
}
