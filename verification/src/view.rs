//! One tab's content: the identity and latest readings of a single device,
//! plus its three charts. A tick hands the view a fresh snapshot of plain
//! values; the view pushes the scalars into the right series and tracks
//! sensors that come and go.

use vstd::prelude::*;
use crate::chart::{BatteryState, ChartData, ChartType};
use crate::config::Config;
use crate::series::pushed;

verus! {

/// A temperature reading, pre-converted to both display units
/// (centi-degrees Celsius and centi-kelvin).
#[derive(Debug, Eq, PartialEq, Structural, Copy, Clone)]
pub struct Temperature {
    pub celsius: i64,
    pub kelvin: i64,
}

/// What one refresh of a device yields, as plain values: identity, charge
/// state, and the scalar readings in centi-units. The part of the program
/// that talks to the hardware fills this in.
#[derive(Debug, Clone)]
pub struct BatterySnapshot {
    pub state: BatteryState,
    pub vendor: Option<String>,
    pub model: Option<String>,
    pub serial_number: Option<String>,
    /// State of charge, in centi-percent.
    pub charge: i64,
    /// State of health, in centi-percent.
    pub health: i64,
    /// Absent when the device does not count its cycles.
    pub cycle_count: Option<u32>,
    /// Centivolts.
    pub voltage: i64,
    /// Centiwatts.
    pub energy_rate: i64,
    /// Absent while the device reports no thermal sensor.
    pub temperature: Option<Temperature>,
    /// Seconds until full, absent while not charging.
    pub time_to_full: Option<u64>,
    /// Seconds until empty, absent while not discharging.
    pub time_to_empty: Option<u64>,
}

/// The tab title a snapshot yields: the model, else the vendor, else the
/// serial number, else a fixed fallback.
pub open spec fn title_of(b: BatterySnapshot) -> Seq<char> {
    if b.model is Some {
        b.model->0@
    } else if b.vendor is Some {
        b.vendor->0@
    } else if b.serial_number is Some {
        b.serial_number->0@
    } else {
        "Unknown battery"@
    }
}

/// The temperature reading a snapshot feeds the chart, in the configured
/// unit.
pub open spec fn temperature_reading(t: Temperature, config: Config) -> int {
    if config.spec_units() == crate::units::Units::Human {
        t.celsius as int
    } else {
        t.kelvin as int
    }
}

/// Everything shown for one device.
pub struct DeviceView {
    config: Config,
    battery: BatterySnapshot,
    voltage: ChartData,
    energy_rate: ChartData,
    temperature: ChartData,
}

impl DeviceView {
    /// The last stored snapshot.
    pub closed spec fn snapshot(&self) -> BatterySnapshot {
        self.battery
    }

    /// The voltage chart.
    pub closed spec fn voltage_chart(&self) -> ChartData {
        self.voltage
    }

    /// The energy-rate chart.
    pub closed spec fn energy_rate_chart(&self) -> ChartData {
        self.energy_rate
    }

    /// The temperature chart.
    pub closed spec fn temperature_chart(&self) -> ChartData {
        self.temperature
    }

    /// The configuration the view was created under.
    pub closed spec fn cfg(&self) -> Config {
        self.config
    }

    /// All three charts are well-formed and show their own quantity.
    pub open spec fn wf(&self) -> bool {
        &&& self.voltage_chart().wf()
        &&& self.energy_rate_chart().wf()
        &&& self.temperature_chart().wf()
        &&& self.voltage_chart().kind() == ChartType::Voltage
        &&& self.energy_rate_chart().kind() == ChartType::EnergyRate
        &&& self.temperature_chart().kind() == ChartType::Temperature
    }

    /// A fresh view around the snapshot taken at enumeration time, with
    /// empty charts.
    pub fn new(config: Config, battery: BatterySnapshot) -> (r: DeviceView)
        ensures
            r.wf(),
            r.cfg() == config,
            r.snapshot() == battery,
            r.voltage_chart().ser().ys() =~= Seq::<int>::empty(),
            r.energy_rate_chart().ser().ys() =~= Seq::<int>::empty(),
            r.temperature_chart().ser().ys() =~= Seq::<int>::empty(),
            r.temperature_chart().is_enabled(),
    {
        DeviceView {
            config,
            battery,
            voltage: ChartData::new(config, ChartType::Voltage),
            energy_rate: ChartData::new(config, ChartType::EnergyRate),
            temperature: ChartData::new(config, ChartType::Temperature),
        }
    }

    /// Take one tick's snapshot: stores it, pushes voltage and energy rate,
    /// and pushes the temperature in the configured unit when the sensor is
    /// present — otherwise the temperature chart is only marked absent and
    /// keeps its history.
    pub fn update(&mut self, snapshot: BatterySnapshot)
        requires
            old(self).wf(),
        ensures
            final(self).wf(),
            final(self).cfg() == old(self).cfg(),
            final(self).snapshot() == snapshot,
            final(self).voltage_chart().ser().ys() == pushed(
                old(self).voltage_chart().ser().ys(),
                snapshot.voltage as int,
            ),
            final(self).voltage_chart().state() == snapshot.state,
            final(self).voltage_chart().is_enabled() == old(self).voltage_chart().is_enabled(),
            final(self).energy_rate_chart().ser().ys() == pushed(
                old(self).energy_rate_chart().ser().ys(),
                snapshot.energy_rate as int,
            ),
            final(self).energy_rate_chart().state() == snapshot.state,
            final(self).energy_rate_chart().is_enabled() == old(self).energy_rate_chart().is_enabled(),
            match snapshot.temperature {
                Some(t) => {
                    &&& final(self).temperature_chart().ser().ys() == pushed(
                        old(self).temperature_chart().ser().ys(),
                        temperature_reading(t, old(self).cfg()),
                    )
                    &&& final(self).temperature_chart().state() == snapshot.state
                    &&& final(self).temperature_chart().is_enabled()
                },
                None => {
                    &&& final(self).temperature_chart().ser() == old(self).temperature_chart().ser()
                    &&& final(self).temperature_chart().state() == old(self).temperature_chart().state()
                    &&& !final(self).temperature_chart().is_enabled()
                },
            },
    {
        self.voltage.push(snapshot.voltage);
        self.voltage.set_battery_state(snapshot.state);

        self.energy_rate.push(snapshot.energy_rate);
        self.energy_rate.set_battery_state(snapshot.state);

        match snapshot.temperature {
            Some(t) => {
                let value = match self.config.units() {
                    crate::units::Units::Human => t.celsius,
                    crate::units::Units::Si => t.kelvin,
                };
                self.temperature.push(value);
                self.temperature.set_battery_state(snapshot.state);
                self.temperature.enabled(true);
            },
            None => {
                self.temperature.enabled(false);
            },
        }

        self.battery = snapshot;
    }

    /// The tab title: the device model, else its vendor, else its serial
    /// number, else a fixed fallback.
    pub fn title(&self) -> (r: String)
        ensures
            r@ == title_of(self.snapshot()),
    {
        match &self.battery.model {
            Some(model) => model.clone(),
            None => match &self.battery.vendor {
                Some(vendor) => vendor.clone(),
                None => match &self.battery.serial_number {
                    Some(sn) => sn.clone(),
                    None => "Unknown battery".to_owned(),
                },
            },
        }
    }

    /// The last stored snapshot.
    pub fn battery(&self) -> (r: &BatterySnapshot)
        ensures
            *r == self.snapshot(),
    {
        &self.battery
    }

    pub fn voltage(&self) -> (r: &ChartData)
        ensures
            *r == self.voltage_chart(),
    {
        &self.voltage
    }

    pub fn energy_rate(&self) -> (r: &ChartData)
        ensures
            *r == self.energy_rate_chart(),
    {
        &self.energy_rate
    }

    pub fn temperature(&self) -> (r: &ChartData)
        ensures
            *r == self.temperature_chart(),
    {
        &self.temperature
    }

    pub fn config(&self) -> (r: &Config)
        ensures
            *r == self.cfg(),
    {
        &self.config
    }
}

} // verus!
