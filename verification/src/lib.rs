//! Core of an interactive battery dashboard: a fixed-capacity telemetry
//! series with auto-scaled chart bounds, per-device views refreshed on every
//! tick, a cyclic tab registry, and the event dispatch of the main loop.
//!
//! Everything that talks to the hardware, the terminal or the renderer lives
//! outside this crate; the library works on plain values and states what it
//! does in contracts.

mod chart;
mod config;
mod errors;
mod events;
mod graph;
mod registry;
mod series;
mod tabs;
mod text;
mod units;
mod view;

pub use chart::{BatteryState, ChartData, ChartType};
pub use config::{parse_duration, Config};
pub use errors::Error;
pub use events::{map_key, Event, Key};
pub use graph::{GraphData, GraphUnits};
pub use registry::{Action, TabRegistry};
pub use series::{ScalarSeries, RESOLUTION};
pub use tabs::TabBar;
pub use units::Units;
pub use view::{BatterySnapshot, DeviceView, Temperature};
