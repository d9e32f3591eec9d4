//! One chart of the dashboard: a scalar series plus everything the renderer
//! asks of it — title, current-value text, axis bounds and axis labels.

use vstd::prelude::*;
use crate::config::Config;
use crate::series::{ScalarSeries, pushed, RESOLUTION};
use crate::text::{cents_decimal, format_cents, format_whole, whole_label};
use crate::units::Units;

verus! {

/// Which measured quantity a chart shows.
#[derive(Debug, Eq, PartialEq, Structural, Copy, Clone)]
pub enum ChartType {
    Voltage,
    EnergyRate,
    Temperature,
}

/// The charge state a device last reported, as the dashboard models it.
#[derive(Debug, Eq, PartialEq, Structural, Copy, Clone)]
pub enum BatteryState {
    Unknown,
    Charging,
    Discharging,
    Empty,
    Full,
}

/// The heading of a chart; the energy-rate chart words it by charge state.
pub open spec fn title_for(kind: ChartType, state: BatteryState) -> Seq<char> {
    match kind {
        ChartType::Voltage => "Voltage"@,
        ChartType::EnergyRate => match state {
            BatteryState::Charging => "Charging with"@,
            BatteryState::Discharging => "Discharging with"@,
            _ => "Consumption"@,
        },
        ChartType::Temperature => "Temperature"@,
    }
}

/// The unit a chart's readings are shown in; temperatures follow the
/// configured unit mode.
pub open spec fn unit_abbreviation(kind: ChartType, units: Units) -> Seq<char> {
    match kind {
        ChartType::Voltage => "V"@,
        ChartType::EnergyRate => "W"@,
        ChartType::Temperature => match units {
            Units::Human => "°C"@,
            Units::Si => "K"@,
        },
    }
}

/// The data behind one chart: its series, whether the sensor is currently
/// present, and the last reported charge state.
pub struct ChartData {
    config: Config,
    chart_type: ChartType,
    enabled: bool,
    battery_state: BatteryState,
    series: ScalarSeries,
}

impl ChartData {
    /// The underlying scalar series.
    pub closed spec fn ser(&self) -> ScalarSeries {
        self.series
    }

    /// Which quantity this chart shows.
    pub closed spec fn kind(&self) -> ChartType {
        self.chart_type
    }

    /// Whether the sensor was present on the last tick.
    pub closed spec fn is_enabled(&self) -> bool {
        self.enabled
    }

    /// The charge state last stored into this chart.
    pub closed spec fn state(&self) -> BatteryState {
        self.battery_state
    }

    /// The configuration the chart formats readings under.
    pub closed spec fn cfg(&self) -> Config {
        self.config
    }

    pub open spec fn wf(&self) -> bool {
        self.ser().wf()
    }

    /// The lower y-axis bound in whole units; a disabled chart pins it to 0.
    pub open spec fn lower_spec(&self) -> int {
        if self.is_enabled() {
            self.ser().padded_lower()
        } else {
            0
        }
    }

    /// The upper y-axis bound in whole units; a disabled chart pins it to 0.
    pub open spec fn upper_spec(&self) -> int {
        if self.is_enabled() {
            self.ser().padded_upper()
        } else {
            0
        }
    }

    /// A fresh chart: enabled, state unknown, series empty.
    pub fn new(config: Config, chart_type: ChartType) -> (r: ChartData)
        ensures
            r.wf(),
            r.kind() == chart_type,
            r.cfg() == config,
            r.is_enabled(),
            r.state() == BatteryState::Unknown,
            r.ser().ys() =~= Seq::<int>::empty(),
            r.ser().latest() == 0,
            r.ser().min_y() == 10000,
            r.ser().max_y() == 0,
    {
        ChartData {
            config,
            chart_type,
            enabled: true,
            battery_state: BatteryState::Unknown,
            series: ScalarSeries::new(),
        }
    }

    /// Mark the sensor present or absent; the history is kept either way.
    pub fn enabled(&mut self, value: bool)
        ensures
            final(self).is_enabled() == value,
            final(self).ser() == old(self).ser(),
            final(self).kind() == old(self).kind(),
            final(self).state() == old(self).state(),
            final(self).cfg() == old(self).cfg(),
    {
        self.enabled = value;
    }

    /// The charge state last stored into this chart.
    pub fn battery_state(&self) -> (r: BatteryState)
        ensures
            r == self.state(),
    {
        self.battery_state
    }

    /// Store the charge state the device just reported.
    pub fn set_battery_state(&mut self, state: BatteryState)
        ensures
            final(self).state() == state,
            final(self).ser() == old(self).ser(),
            final(self).kind() == old(self).kind(),
            final(self).is_enabled() == old(self).is_enabled(),
            final(self).cfg() == old(self).cfg(),
    {
        self.battery_state = state;
    }

    /// Append a reading (centi-units) to the chart's series.
    pub fn push(&mut self, value: i64)
        requires
            old(self).wf(),
        ensures
            final(self).wf(),
            final(self).ser().ys() == pushed(old(self).ser().ys(), value as int),
            final(self).ser().latest() == value as int,
            final(self).kind() == old(self).kind(),
            final(self).is_enabled() == old(self).is_enabled(),
            final(self).state() == old(self).state(),
            final(self).cfg() == old(self).cfg(),
    {
        self.series.push(value);
    }

    /// The chart's heading.
    pub fn title(&self) -> (r: &'static str)
        ensures
            r@ == title_for(self.kind(), self.state()),
    {
        match self.chart_type {
            ChartType::Voltage => "Voltage",
            ChartType::EnergyRate => match self.battery_state {
                BatteryState::Charging => "Charging with",
                BatteryState::Discharging => "Discharging with",
                _ => "Consumption",
            },
            ChartType::Temperature => "Temperature",
        }
    }

    /// The latest reading with its unit, or a sentinel while the sensor is
    /// absent.
    pub fn current(&self) -> (r: String)
        ensures
            r@ == if self.is_enabled() {
                cents_decimal(self.ser().latest()) + seq![' '] + unit_abbreviation(
                    self.kind(),
                    self.cfg().spec_units(),
                )
            } else {
                "NOT AVAILABLE"@
            },
    {
        if self.enabled {
            let mut s = format_cents(self.series.latest_value());
            s.append(" ");
            s.append(self.y_title());
            proof {
                reveal_strlit(" ");
                assert(s@ =~= cents_decimal(self.ser().latest()) + seq![' ']
                    + unit_abbreviation(self.kind(), self.cfg().spec_units()));
            }
            s
        } else {
            "NOT AVAILABLE".to_owned()
        }
    }

    /// The retained points, oldest first (x half-steps, y centi-units).
    pub fn points(&self) -> (r: &Vec<(u64, i64)>)
        ensures
            r@ == self.ser().pairs(),
    {
        self.series.points()
    }

    /// The fixed x-axis window, in half-column steps.
    pub fn x_bounds(&self) -> (r: [u64; 2])
        ensures
            r@ =~= seq![0u64, RESOLUTION as u64],
    {
        [0, RESOLUTION as u64]
    }

    /// The unit the y-axis is labelled with.
    pub fn y_title(&self) -> (r: &'static str)
        ensures
            r@ == unit_abbreviation(self.kind(), self.cfg().spec_units()),
    {
        match self.chart_type {
            ChartType::Voltage => "V",
            ChartType::EnergyRate => "W",
            ChartType::Temperature => match self.config.units() {
                Units::Human => "°C",
                Units::Si => "K",
            },
        }
    }

    /// The two y-axis labels: the padded bounds with no decimals.
    pub fn y_labels(&self) -> (r: Vec<String>)
        ensures
            r@.len() == 2,
            r@[0]@ == whole_label(self.lower_spec()),
            r@[1]@ == whole_label(self.upper_spec()),
    {
        let lower = if self.enabled {
            self.series.lower_bound()
        } else {
            0
        };
        let upper = if self.enabled {
            self.series.upper_bound()
        } else {
            0
        };
        let mut labels: Vec<String> = Vec::new();
        labels.push(format_whole(lower));
        labels.push(format_whole(upper));
        labels
    }

    /// The y-axis window, in whole units.
    pub fn y_bounds(&self) -> (r: [i64; 2])
        ensures
            r@.len() == 2,
            r@[0] as int == self.lower_spec(),
            r@[1] as int == self.upper_spec(),
    {
        let lower = if self.enabled {
            self.series.lower_bound()
        } else {
            0
        };
        let upper = if self.enabled {
            self.series.upper_bound()
        } else {
            0
        };
        [lower, upper]
    }

    /// Law: while the sensor is present and the readings are nonnegative,
    /// the padding keeps the y-axis bounds strictly ordered, even when all
    /// readings are equal.
    pub proof fn lemma_y_bounds_ordered(&self)
        requires
            self.wf(),
            self.is_enabled(),
            self.ser().ys().len() > 0,
            self.ser().min_y() >= 0,
        ensures
            self.lower_spec() < self.upper_spec(),
    {
        self.ser().lemma_padded_bounds_ordered();
    }
}

} // verus!
