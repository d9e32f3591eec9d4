//! A leaner chart over the same scrolling series: a fixed title, a fixed
//! unit, and no sensor-absence state.

use vstd::prelude::*;
use crate::series::{pushed, ScalarSeries, RESOLUTION};
use crate::text::{cents_decimal, format_cents, format_whole, whole_label};

verus! {

/// The unit a graph's readings are shown in.
#[derive(Debug, Eq, PartialEq, Structural, Copy, Clone)]
pub enum GraphUnits {
    Volt,
    Watt,
    Celsius,
}

/// The abbreviation a graph labels its y-axis with.
pub open spec fn graph_unit_abbreviation(units: GraphUnits) -> Seq<char> {
    match units {
        GraphUnits::Volt => "V"@,
        GraphUnits::Watt => "W"@,
        GraphUnits::Celsius => "°C"@,
    }
}

/// One graph: its title, unit and scrolling series.
pub struct GraphData<'g> {
    title: &'g str,
    units: GraphUnits,
    series: ScalarSeries,
}

impl<'g> GraphData<'g> {
    /// The underlying scalar series.
    pub closed spec fn ser(&self) -> ScalarSeries {
        self.series
    }

    /// The graph's fixed title.
    pub closed spec fn title_view(&self) -> Seq<char> {
        self.title@
    }

    /// The unit the readings are in.
    pub closed spec fn unit(&self) -> GraphUnits {
        self.units
    }

    pub open spec fn wf(&self) -> bool {
        self.ser().wf()
    }

    /// A fresh, empty graph.
    pub fn new(title: &'g str, units: GraphUnits) -> (r: GraphData<'g>)
        ensures
            r.wf(),
            r.title_view() == title@,
            r.unit() == units,
            r.ser().ys() =~= Seq::<int>::empty(),
            r.ser().latest() == 0,
            r.ser().min_y() == 10000,
            r.ser().max_y() == 0,
    {
        GraphData { title, units, series: ScalarSeries::new() }
    }

    pub fn title(&self) -> (r: &str)
        ensures
            r@ == self.title_view(),
    {
        self.title
    }

    /// The latest reading with its unit.
    pub fn current(&self) -> (r: String)
        ensures
            r@ == cents_decimal(self.ser().latest()) + seq![' '] + graph_unit_abbreviation(
                self.unit(),
            ),
    {
        let mut s = format_cents(self.series.latest_value());
        s.append(" ");
        s.append(self.y_title());
        proof {
            reveal_strlit(" ");
            assert(s@ =~= cents_decimal(self.ser().latest()) + seq![' ']
                + graph_unit_abbreviation(self.unit()));
        }
        s
    }

    /// The retained points, oldest first (x half-steps, y centi-units).
    pub fn points(&self) -> (r: &Vec<(u64, i64)>)
        ensures
            r@ == self.ser().pairs(),
    {
        self.series.points()
    }

    /// The fixed x-axis window, in half-column steps.
    pub fn x_bounds(&self) -> (r: [u64; 2])
        ensures
            r@ =~= seq![0u64, RESOLUTION as u64],
    {
        [0, RESOLUTION as u64]
    }

    /// The unit the y-axis is labelled with.
    pub fn y_title(&self) -> (r: &'static str)
        ensures
            r@ == graph_unit_abbreviation(self.unit()),
    {
        match self.units {
            GraphUnits::Volt => "V",
            GraphUnits::Watt => "W",
            GraphUnits::Celsius => "°C",
        }
    }

    /// The two y-axis labels: the padded bounds with no decimals.
    pub fn y_labels(&self) -> (r: Vec<String>)
        ensures
            r@.len() == 2,
            r@[0]@ == whole_label(self.ser().padded_lower()),
            r@[1]@ == whole_label(self.ser().padded_upper()),
    {
        let mut labels: Vec<String> = Vec::new();
        labels.push(format_whole(self.series.lower_bound()));
        labels.push(format_whole(self.series.upper_bound()));
        labels
    }

    /// The y-axis window, in whole units.
    pub fn y_bounds(&self) -> (r: [i64; 2])
        ensures
            r@.len() == 2,
            r@[0] as int == self.ser().padded_lower(),
            r@[1] as int == self.ser().padded_upper(),
    {
        [self.series.lower_bound(), self.series.upper_bound()]
    }

    /// Append a reading (centi-units).
    pub fn push(&mut self, value: i64)
        requires
            old(self).wf(),
        ensures
            final(self).wf(),
            final(self).ser().ys() == pushed(old(self).ser().ys(), value as int),
            final(self).ser().latest() == value as int,
            final(self).title_view() == old(self).title_view(),
            final(self).unit() == old(self).unit(),
    {
        self.series.push(value);
    }
}

} // verus!
