//! Configuration data for the overlay widgets.
//!
//! The values are immutable after load; the application reads them from its
//! configuration file and passes them into the dock engine by reference.

use vstd::prelude::*;

verus! {

/// Which screen edge a widget is attached to.
#[derive(Clone, Copy, Debug, PartialEq, Eq, Structural)]
pub enum EdgeConfig {
    Left,
    Right,
    Top,
    Bottom,
}

/// Settings of the dock: whether it runs, the edge it is anchored to, and the
/// debounce delay (milliseconds) before an armed hide takes effect.
#[derive(Clone, Copy, Debug, PartialEq, Eq, Structural)]
pub struct DockConfig {
    pub enabled: bool,
    pub edge: EdgeConfig,
    pub hide_timeout: u64,
}

/// A fixed on-screen position in pixels.
#[derive(Clone, Copy, Debug, PartialEq, Eq, Structural)]
pub struct Position {
    pub x: i32,
    pub y: i32,
}

/// A fixed widget size in pixels.
#[derive(Clone, Copy, Debug, PartialEq, Eq, Structural)]
pub struct Size {
    pub width: i32,
    pub height: i32,
}

/// Settings of the calendar widget.
#[derive(Clone, Copy, Debug, PartialEq, Eq, Structural)]
pub struct CalendarConfig {
    pub enabled: bool,
    pub position: Position,
    pub size: Size,
}

/// Top-level configuration: one section per widget.
#[derive(Clone, Copy, Debug, PartialEq, Eq, Structural)]
pub struct Config {
    pub dock: DockConfig,
    pub calendar: CalendarConfig,
}

impl Default for DockConfig {
    /// The dock is off by default, sits at the bottom edge, and waits 300 ms
    /// before hiding.
    fn default() -> (c: Self)
        ensures
            c == (DockConfig { enabled: false, edge: EdgeConfig::Bottom, hide_timeout: 300u64 }),
    {
        DockConfig { enabled: false, edge: EdgeConfig::Bottom, hide_timeout: 300 }
    }
}

impl Default for CalendarConfig {
    /// The calendar is on by default, 300 by 250 pixels at offset (25, 25).
    fn default() -> (c: Self)
        ensures
            c == (CalendarConfig {
                enabled: true,
                position: Position { x: 25, y: 25 },
                size: Size { width: 300, height: 250 },
            }),
    {
        CalendarConfig {
            enabled: true,
            position: Position { x: 25, y: 25 },
            size: Size { width: 300, height: 250 },
        }
    }
}

impl Default for Config {
    /// Both sections take their own defaults.
    fn default() -> (c: Self)
        ensures
            c.dock == (DockConfig { enabled: false, edge: EdgeConfig::Bottom, hide_timeout: 300u64 }),
            c.calendar == (CalendarConfig {
                enabled: true,
                position: Position { x: 25, y: 25 },
                size: Size { width: 300, height: 250 },
            }),
    {
        Config { dock: DockConfig::default(), calendar: CalendarConfig::default() }
    }
}

} // verus!
