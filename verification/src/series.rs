//! Fixed-capacity scrolling series of scalar readings.
//!
//! Readings are kept in centi-units (hundredths of the displayed unit), so a
//! reading of 12.34 volts is stored as 1234. Each point also carries an
//! x-coordinate in half-column steps: the newest point always sits at
//! `RESOLUTION` half-steps (half the chart width), and every older point is
//! one half-step further left, which scrolls the chart without storing time.

use vstd::prelude::*;
use vstd::pervasive::VecAdditionalExecFns;

verus! {

/// Number of points a series retains; the oldest is evicted beyond that.
pub const RESOLUTION: usize = 512;

/// One push onto the model of a series: the new reading goes at the end, and
/// the oldest one leaves first when the series is full.
pub open spec fn pushed(s: Seq<int>, v: int) -> Seq<int> {
    if s.len() < RESOLUTION {
        s.push(v)
    } else {
        s.skip(1).push(v)
    }
}

/// The readings a series retains after pushing `vals`, oldest first, onto an
/// empty series.
pub open spec fn series_of(vals: Seq<int>) -> Seq<int>
    decreases vals.len(),
{
    if vals.len() == 0 {
        Seq::empty()
    } else {
        pushed(series_of(vals.drop_last()), vals.last())
    }
}

/// Law: a series never retains more than `RESOLUTION` readings, and after any
/// sequence of pushes it holds exactly the most recent `RESOLUTION` of them,
/// in chronological order.
pub proof fn lemma_series_history(vals: Seq<int>)
    ensures
        series_of(vals).len() == if vals.len() <= RESOLUTION {
            vals.len()
        } else {
            RESOLUTION as nat
        },
        series_of(vals) =~= vals.skip(
            if vals.len() <= RESOLUTION {
                0
            } else {
                vals.len() - RESOLUTION
            },
        ),
    decreases vals.len(),
{
    if vals.len() > 0 {
        let pre = vals.drop_last();
        lemma_series_history(pre);
        assert(pre.push(vals.last()) =~= vals);
        if pre.len() >= RESOLUTION {
            assert(series_of(pre).skip(1).push(vals.last()) =~= vals.skip(
                vals.len() - RESOLUTION,
            ));
        } else {
            assert(series_of(pre).push(vals.last()) =~= vals.skip(0));
        }
    }
}

/// The scrolling buffer of one measured quantity, with its running bounds.
/// It remembers, in ghost state, every reading ever pushed, so that what it
/// retains can be stated against the whole history.
pub struct ScalarSeries {
    points: Vec<(u64, i64)>,
    value_latest: i64,
    value_min: i64,
    value_max: i64,
    history: Ghost<Seq<int>>,
}

impl ScalarSeries {
    /// Every reading ever pushed, oldest first (ghost).
    pub closed spec fn history(&self) -> Seq<int> {
        self.history@
    }
    /// The retained points: x in half-column steps, y in centi-units.
    pub closed spec fn pairs(&self) -> Seq<(u64, i64)> {
        self.points@
    }

    /// The retained readings, oldest first.
    pub open spec fn ys(&self) -> Seq<int> {
        self.pairs().map_values(|p: (u64, i64)| p.1 as int)
    }

    /// The stored x-coordinates, oldest first.
    pub open spec fn xs(&self) -> Seq<int> {
        self.pairs().map_values(|p: (u64, i64)| p.0 as int)
    }

    /// The most recently pushed reading.
    pub closed spec fn latest(&self) -> int {
        self.value_latest as int
    }

    /// The smallest retained reading (as recomputed by the last push).
    pub closed spec fn min_y(&self) -> int {
        self.value_min as int
    }

    /// The largest retained reading (as recomputed by the last push).
    pub closed spec fn max_y(&self) -> int {
        self.value_max as int
    }

    /// Well-formedness: capacity is respected, the x-coordinates put the
    /// newest point at `RESOLUTION` half-steps with older points one
    /// half-step apart, and latest/min/max agree with the retained readings.
    pub closed spec fn wf(&self) -> bool {
        let n = self.points@.len() as int;
        &&& self.ys() == series_of(self.history@)
        &&& n <= RESOLUTION
        &&& (forall|i: int|
            0 <= i < n ==> #[trigger] self.points@[i].0 as int == RESOLUTION + 1 + i - n)
        &&& (n > 0 ==> {
            &&& self.value_latest == self.points@[n - 1].1
            &&& (forall|i: int|
                0 <= i < n ==> self.value_min <= #[trigger] self.points@[i].1 <= self.value_max)
            &&& (exists|i: int| 0 <= i < n && self.points@[i].1 == self.value_min)
            &&& (exists|i: int| 0 <= i < n && self.points@[i].1 == self.value_max)
        })
    }

    /// A fresh, empty series. Until the first push the derived scalars keep
    /// their starting values (min 100.00, max and latest 0.00).
    pub fn new() -> (r: ScalarSeries)
        ensures
            r.wf(),
            r.history() =~= Seq::<int>::empty(),
            r.ys() =~= Seq::<int>::empty(),
            r.latest() == 0,
            r.min_y() == 10000,
            r.max_y() == 0,
    {
        let r = ScalarSeries {
            points: Vec::new(),
            value_latest: 0,
            value_min: 10000,
            value_max: 0,
            history: Ghost(Seq::empty()),
        };
        proof {
            assert(r.ys() =~= series_of(r.history@));
        }
        r
    }

    /// Append a reading: evicts the oldest point at capacity, shifts every
    /// older point one half-step left, places the new point at `RESOLUTION`
    /// half-steps, and rescans the retained readings for min and max.
    pub fn push(&mut self, value: i64)
        requires
            old(self).wf(),
        ensures
            final(self).wf(),
            final(self).history() == old(self).history().push(value as int),
            final(self).ys() == pushed(old(self).ys(), value as int),
            final(self).latest() == value as int,
    {
        let ghost h0 = self.history@;
        if self.points.len() == RESOLUTION {
            self.points.remove(0);
        }
        let n = self.points.len();
        let ghost p0 = self.points@;
        assert(forall|j: int| 0 <= j < n ==> #[trigger] p0[j].0 >= 1);
        let mut i: usize = 0;
        while i < n
            invariant
                i <= n,
                n == self.points@.len(),
                n < RESOLUTION,
                forall|j: int| 0 <= j < n ==> #[trigger] p0[j].0 >= 1,
                forall|j: int|
                    0 <= j < i ==> #[trigger] self.points@[j] == (
                        (p0[j].0 - 1) as u64,
                        p0[j].1,
                    ),
                forall|j: int| i <= j < n ==> #[trigger] self.points@[j] == p0[j],
            decreases n - i,
        {
            let p = self.points[i];
            self.points.set(i, (p.0 - 1, p.1));
            i += 1;
        }
        self.value_latest = value;
        self.points.push((RESOLUTION as u64, value));

        let m = self.points.len();
        let mut low = self.points[0].1;
        let mut high = self.points[0].1;
        let mut k: usize = 1;
        while k < m
            invariant
                1 <= k <= m,
                m == self.points@.len(),
                exists|j: int| 0 <= j < k && #[trigger] self.points@[j].1 == low,
                exists|j: int| 0 <= j < k && #[trigger] self.points@[j].1 == high,
                forall|j: int| 0 <= j < k ==> low <= #[trigger] self.points@[j].1 <= high,
            decreases m - k,
        {
            let y = self.points[k].1;
            if y < low {
                low = y;
            }
            if y > high {
                high = y;
            }
            k += 1;
        }
        self.value_min = low;
        self.value_max = high;
        self.history = Ghost(h0.push(value as int));

        proof {
            assert(h0.push(value as int).drop_last() =~= h0);
            assert(series_of(h0.push(value as int)) == pushed(series_of(h0), value as int));
            assert(self.ys() =~= pushed(old(self).ys(), value as int));
        }
    }

    /// The most recently pushed reading, for display.
    pub fn latest_value(&self) -> (r: i64)
        ensures
            r as int == self.latest(),
    {
        self.value_latest
    }

    /// Read-only access to the retained points (x half-steps, y centi-units).
    pub fn points(&self) -> (r: &Vec<(u64, i64)>)
        ensures
            r@ == self.pairs(),
    {
        &self.points
    }

    /// Lower chart bound in whole units: the smallest reading minus one unit,
    /// rounded down, and raised to -1 when that falls below zero.
    pub open spec fn padded_lower(&self) -> int {
        let f = (self.min_y() - 100) / 100;
        if f < 0 {
            -1
        } else {
            f
        }
    }

    /// Upper chart bound in whole units: the largest reading plus one unit,
    /// rounded up.
    pub open spec fn padded_upper(&self) -> int {
        (self.max_y() + 199) / 100
    }

    /// Compute the lower chart bound.
    pub fn lower_bound(&self) -> (r: i64)
        ensures
            r as int == self.padded_lower(),
    {
        let f = floor_div_100((self.value_min as i128) - 100);
        if f < 0 {
            -1
        } else {
            f as i64
        }
    }

    /// Compute the upper chart bound.
    pub fn upper_bound(&self) -> (r: i64)
        ensures
            r as int == self.padded_upper(),
    {
        let f = floor_div_100((self.value_max as i128) + 199);
        proof {
            vstd::arithmetic::div_mod::lemma_div_is_ordered(
                self.max_y() + 199,
                i64::MAX as int + 199,
                100,
            );
            vstd::arithmetic::div_mod::lemma_div_is_ordered(
                i64::MIN as int + 199,
                self.max_y() + 199,
                100,
            );
        }
        f as i64
    }

    /// Law: the buffer never exceeds its capacity, and it retains exactly
    /// the most recent `RESOLUTION` readings of everything ever pushed, in
    /// chronological order.
    pub proof fn lemma_retained_window(&self)
        requires
            self.wf(),
        ensures
            self.ys().len() <= RESOLUTION,
            self.ys().len() == if self.history().len() <= RESOLUTION {
                self.history().len()
            } else {
                RESOLUTION as nat
            },
            self.ys() =~= self.history().skip(
                if self.history().len() <= RESOLUTION {
                    0
                } else {
                    self.history().len() - RESOLUTION
                },
            ),
    {
        lemma_series_history(self.history@);
    }

    /// Law: every retained reading lies between min and max, both are
    /// themselves retained readings, and a series with exactly one reading
    /// has min equal to max.
    pub proof fn lemma_min_max_bounds(&self)
        requires
            self.wf(),
            self.ys().len() > 0,
        ensures
            forall|i: int|
                0 <= i < self.ys().len() ==> self.min_y() <= #[trigger] self.ys()[i]
                    <= self.max_y(),
            exists|i: int| 0 <= i < self.ys().len() && self.ys()[i] == self.min_y(),
            exists|i: int| 0 <= i < self.ys().len() && self.ys()[i] == self.max_y(),
            self.ys().len() == 1 ==> self.min_y() == self.max_y(),
    {
        let i = choose|i: int| 0 <= i < self.points@.len() && self.points@[i].1 == self.value_min;
        assert(self.ys()[i] == self.min_y());
        let j = choose|j: int| 0 <= j < self.points@.len() && self.points@[j].1 == self.value_max;
        assert(self.ys()[j] == self.max_y());
    }

    /// Law: for nonnegative readings the padded chart bounds are strictly
    /// ordered, even when min equals max.
    pub proof fn lemma_padded_bounds_ordered(&self)
        requires
            self.wf(),
            self.ys().len() > 0,
            self.min_y() >= 0,
        ensures
            self.padded_lower() < self.padded_upper(),
    {
        self.lemma_min_max_bounds();
        assert(self.min_y() <= self.max_y());
        let f = (self.min_y() - 100) / 100;
        vstd::arithmetic::div_mod::lemma_div_is_ordered(-100, self.min_y() - 100, 100);
        vstd::arithmetic::div_mod::lemma_fundamental_div_mod_converse(-100, 100, -1, 0);
        if f < 0 {
            vstd::arithmetic::div_mod::lemma_div_is_ordered(99, self.max_y() + 199, 100);
            vstd::arithmetic::div_mod::lemma_fundamental_div_mod_converse(99, 100, 0, 99);
        } else {
            vstd::arithmetic::div_mod::lemma_div_is_ordered(
                self.min_y() - 100,
                self.max_y() - 100,
                100,
            );
            vstd::arithmetic::div_mod::lemma_hoist_over_denominator(self.max_y() - 100, 2, 100);
            assert(self.max_y() - 100 + 2 * 100 == self.max_y() + 100);
            vstd::arithmetic::div_mod::lemma_div_is_ordered(
                self.max_y() + 100,
                self.max_y() + 199,
                100,
            );
        }
    }

    /// What well-formedness guarantees: the capacity bound, the x-coordinate
    /// layout, and that `latest` is the newest reading.
    pub proof fn lemma_wf_facts(&self)
        requires
            self.wf(),
        ensures
            self.ys().len() <= RESOLUTION,
            self.xs().len() == self.ys().len(),
            forall|i: int|
                0 <= i < self.xs().len() ==> #[trigger] self.xs()[i] == RESOLUTION + 1 + i
                    - self.ys().len(),
            self.ys().len() > 0 ==> self.latest() == self.ys().last(),
    {
    }
}

/// Floor division by 100 (exec division on machine integers truncates toward
/// zero, so the negative case is adjusted to round down).
fn floor_div_100(a: i128) -> (r: i128)
    requires
        i64::MIN - 200 <= a <= i64::MAX + 200,
    ensures
        r == (a as int) / 100,
        i64::MIN <= r <= i64::MAX,
{
    if a >= 0 {
        let q = ((a as u128) / 100) as i128;
        proof {
            vstd::arithmetic::div_mod::lemma_div_is_ordered(0, a as int, 100);
            vstd::arithmetic::div_mod::lemma_div_is_ordered(a as int, i64::MAX + 200, 100);
            vstd::arithmetic::div_mod::lemma_fundamental_div_mod_converse(
                i64::MAX + 200,
                100,
                92233720368547760,
                7,
            );
        }
        q
    } else {
        let m = (-a) as u128;
        let q = ((m + 99) / 100) as i128;
        proof {
            let mm = m as int;
            let qq = (mm + 99) / 100;
            vstd::arithmetic::div_mod::lemma_fundamental_div_mod(mm + 99, 100);
            vstd::arithmetic::div_mod::lemma_fundamental_div_mod_converse(
                a as int,
                100,
                -qq,
                qq * 100 - mm,
            );
            vstd::arithmetic::div_mod::lemma_div_is_ordered(0, mm + 99, 100);
            vstd::arithmetic::div_mod::lemma_div_is_ordered(mm + 99, i64::MAX + 300, 100);
            vstd::arithmetic::div_mod::lemma_fundamental_div_mod_converse(
                i64::MAX + 300,
                100,
                92233720368547761,
                7,
            );
        }
        -q
    }
}

} // verus!
