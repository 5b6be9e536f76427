//! Where the window stands and how it looks.

use vstd::prelude::*;

verus! {

/// The height of the bar at the top of the window.
pub const TOPBAR_HEIGHT: i32 = 25;

/// The upper edge of the readout.
pub const READOUT_TOP: i32 = 28;

/// The lower edge of the readout.
pub const READOUT_BOTTOM: i32 = 60;

/// The colour behind the readout.
pub const READOUT_BACKGROUND: u32 = 0x202020;

/// The colour of the readout's text.
pub const READOUT_TEXT_COLOR: u32 = 0x000000;

/// A region of the window, in pixels from its upper left corner.
#[derive(Clone, Copy, Debug, PartialEq, Eq)]
pub struct Rect {
    pub left: i32,
    pub top: i32,
    pub right: i32,
    pub bottom: i32,
}

/// The settings of the overlay. They are fixed when it is built.
#[derive(Clone, Copy, Debug, PartialEq, Eq)]
pub struct Config {
    pub pos_x: i32,
    pub pos_y: i32,
    pub width: i32,
    pub height: i32,
    pub font_size: i32,
    pub topbar_color: u32,
    /// Whether mouse clicks pass through the window.
    pub click_through: bool,
    /// The period of the redraw ticker, in milliseconds.
    pub tick_interval_ms: u64,
}

impl Config {
    /// The settings that the overlay ships with.
    pub open spec fn standard() -> Config {
        Config {
            pos_x: 20,
            pos_y: 20,
            width: 320,
            height: 100,
            font_size: 48,
            topbar_color: 0x202020,
            click_through: true,
            tick_interval_ms: 200,
        }
    }

    /// The bar at the top: the full width of the window.
    pub open spec fn topbar_region(self) -> Rect {
        Rect { left: 0, top: 0, right: self.width, bottom: TOPBAR_HEIGHT }
    }

    /// The band below the bar in which the elapsed time is drawn.
    pub open spec fn readout_region(self) -> Rect {
        Rect { left: 0, top: READOUT_TOP, right: self.width, bottom: READOUT_BOTTOM }
    }

    /// The bar at the top: the full width of the window.
    pub fn topbar_rect(&self) -> (rect: Rect)
        ensures
            rect == self.topbar_region(),
    {
        Rect { left: 0, top: 0, right: self.width, bottom: TOPBAR_HEIGHT }
    }

    /// The band below the bar in which the elapsed time is drawn.
    pub fn readout_rect(&self) -> (rect: Rect)
        ensures
            rect == self.readout_region(),
    {
        Rect { left: 0, top: READOUT_TOP, right: self.width, bottom: READOUT_BOTTOM }
    }
}

impl Default for Config {
    fn default() -> (config: Config)
        ensures
            config == Config::standard(),
    {
        Config {
            pos_x: 20,
            pos_y: 20,
            width: 320,
            height: 100,
            font_size: 48,
            topbar_color: 0x202020,
            click_through: true,
            tick_interval_ms: 200,
        }
    }
}

} // verus!
