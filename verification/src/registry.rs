//! The ordered collection of device views, the tab strip over them, and the
//! dispatch of one consumed event — the decision step of the main loop. The
//! loop itself (blocking on the event channel, reading the hardware,
//! redrawing) runs outside the library and only follows the `Action`
//! returned here.

use vstd::prelude::*;
use crate::errors::Error;
use crate::events::Event;
use crate::tabs::{next_index, previous_index, TabBar};
use crate::view::{BatterySnapshot, DeviceView};

verus! {

/// What the loop around the library must do after one event was dispatched.
#[derive(Debug, Eq, PartialEq, Structural, Copy, Clone)]
pub enum Action {
    /// Redraw and wait for the next event; nothing else to do.
    Continue,
    /// Refresh the telemetry of every device, then redraw.
    RefreshAll,
}

/// All devices found at startup, one view per tab, plus the tab strip.
/// It exists only non-empty: enumeration that finds nothing is an error.
pub struct TabRegistry {
    views: Vec<DeviceView>,
    tabs: TabBar,
}

impl TabRegistry {
    /// The device views, in enumeration order.
    pub closed spec fn views_view(&self) -> Seq<DeviceView> {
        self.views@
    }

    /// The tab strip.
    pub closed spec fn tab_bar(&self) -> TabBar {
        self.tabs
    }

    /// The selected tab index.
    pub open spec fn selected(&self) -> int {
        self.tab_bar().selected()
    }

    /// Non-empty, one tab per view, a valid cursor, and well-formed views.
    pub open spec fn wf(&self) -> bool {
        &&& self.views_view().len() > 0
        &&& self.tab_bar().wf()
        &&& self.tab_bar().titles_view().len() == self.views_view().len()
        &&& (forall|i: int|
            0 <= i < self.views_view().len() ==> (#[trigger] self.views_view()[i]).wf())
    }

    /// Build the registry from the enumerated devices; with no device there
    /// is nothing to show and construction fails.
    pub fn new(views: Vec<DeviceView>) -> (r: Result<TabRegistry, Error>)
        requires
            forall|i: int| 0 <= i < views@.len() ==> (#[trigger] views@[i]).wf(),
        ensures
            match r {
                Ok(reg) => {
                    &&& views@.len() > 0
                    &&& reg.wf()
                    &&& reg.views_view() == views@
                    &&& reg.selected() == 0
                    &&& reg.tab_bar().titles_view() == views@.map_values(
                        |v: DeviceView| crate::view::title_of(v.snapshot()),
                    )
                },
                Err(e) => e == Error::NoBatteries && views@.len() == 0,
            },
    {
        if views.len() == 0 {
            return Err(Error::NoBatteries);
        }
        let mut titles: Vec<String> = Vec::new();
        let n = views.len();
        let mut i: usize = 0;
        while i < n
            invariant
                i <= n,
                n == views@.len(),
                forall|j: int| 0 <= j < n ==> (#[trigger] views@[j]).wf(),
                titles@.len() == i,
                forall|j: int|
                    0 <= j < i ==> (#[trigger] titles@[j])@ == crate::view::title_of(
                        views@[j].snapshot(),
                    ),
            decreases n - i,
        {
            titles.push(views[i].title());
            i += 1;
        }
        let tabs = TabBar::new(titles);
        proof {
            assert(tabs.titles_view() =~= views@.map_values(
                |v: DeviceView| crate::view::title_of(v.snapshot()),
            ));
        }
        Ok(TabRegistry { views, tabs })
    }

    /// Dispatch one received event. `Exit` ends the loop through the
    /// user-exit error and touches nothing — in particular it never asks for
    /// another telemetry refresh. The tab events only move the selection,
    /// and `Tick` only asks the caller to refresh every device.
    pub fn handle_event(&mut self, event: Event) -> (r: Result<Action, Error>)
        requires
            old(self).wf(),
        ensures
            final(self).wf(),
            final(self).views_view() == old(self).views_view(),
            final(self).tab_bar().titles_view() == old(self).tab_bar().titles_view(),
            match event {
                Event::Exit => r == Err::<Action, Error>(Error::UserExit) && *final(self) == *old(self),
                Event::PreviousTab => r == Ok::<Action, Error>(Action::Continue) && final(self).selected() == previous_index(
                    old(self).selected(),
                    old(self).views_view().len() as int,
                ),
                Event::NextTab => r == Ok::<Action, Error>(Action::Continue) && final(self).selected() == next_index(
                    old(self).selected(),
                    old(self).views_view().len() as int,
                ),
                Event::Tick => r == Ok::<Action, Error>(Action::RefreshAll) && *final(self)
                    == *old(self),
            },
    {
        match event {
            Event::Exit => Err(Error::UserExit),
            Event::PreviousTab => {
                self.tabs.previous();
                Ok(Action::Continue)
            },
            Event::NextTab => {
                self.tabs.next();
                Ok(Action::Continue)
            },
            Event::Tick => Ok(Action::RefreshAll),
        }
    }

    /// How many devices are shown.
    pub fn len(&self) -> (r: usize)
        ensures
            r == self.views_view().len(),
    {
        self.views.len()
    }

    /// Feed one device its fresh snapshot (one step of a `RefreshAll`).
    pub fn update_view(&mut self, i: usize, snapshot: BatterySnapshot)
        requires
            old(self).wf(),
            i < old(self).views_view().len(),
        ensures
            final(self).wf(),
            final(self).tab_bar() == old(self).tab_bar(),
            final(self).views_view().len() == old(self).views_view().len(),
            forall|j: int|
                0 <= j < old(self).views_view().len() && j != i ==> final(self).views_view()[j]
                    == #[trigger] old(self).views_view()[j],
            final(self).views_view()[i as int].snapshot() == snapshot,
            final(self).views_view()[i as int].cfg() == old(self).views_view()[i as int].cfg(),
            final(self).views_view()[i as int].voltage_chart().ser().ys() == crate::series::pushed(
                old(self).views_view()[i as int].voltage_chart().ser().ys(),
                snapshot.voltage as int,
            ),
            final(self).views_view()[i as int].voltage_chart().state() == snapshot.state,
            final(self).views_view()[i as int].energy_rate_chart().ser().ys()
                == crate::series::pushed(
                old(self).views_view()[i as int].energy_rate_chart().ser().ys(),
                snapshot.energy_rate as int,
            ),
            final(self).views_view()[i as int].energy_rate_chart().state() == snapshot.state,
            match snapshot.temperature {
                Some(t) => final(self).views_view()[i as int].temperature_chart().ser().ys()
                    == crate::series::pushed(
                    old(self).views_view()[i as int].temperature_chart().ser().ys(),
                    crate::view::temperature_reading(
                        t,
                        old(self).views_view()[i as int].cfg(),
                    ),
                ) && final(self).views_view()[i as int].temperature_chart().state()
                    == snapshot.state && final(self).views_view()[i as int].temperature_chart().is_enabled(),
                None => final(self).views_view()[i as int].temperature_chart().ser() == old(self).views_view()[i as int].temperature_chart().ser() && !final(self).views_view()[i as int].temperature_chart().is_enabled(),
            },
    {
        let view = &mut self.views[i];
        view.update(snapshot);
    }

    /// The view of the selected tab.
    pub fn selected_view(&self) -> (r: &DeviceView)
        requires
            self.wf(),
        ensures
            *r == self.views_view()[self.selected()],
    {
        &self.views[self.tabs.index()]
    }

    /// All views, in enumeration order.
    pub fn views(&self) -> (r: &Vec<DeviceView>)
        ensures
            r@ == self.views_view(),
    {
        &self.views
    }

    /// The tab strip.
    pub fn tabs(&self) -> (r: &TabBar)
        ensures
            *r == self.tab_bar(),
    {
        &self.tabs
    }
}

} // verus!
