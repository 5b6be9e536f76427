//! The state and rules of an always-on-top overlay stopwatch: a timer that
//! is started, paused and reset by global hotkeys, a window that is either
//! opaque or nearly invisible, and the readout that shows the elapsed time.
//!
//! Time is counted in whole nanoseconds since the origin of a monotonic
//! clock. The host owns the window and the message loop; it turns each
//! message into an [`overlay::Event`], hands it to [`overlay::Overlay`], and
//! carries out the [`overlay::Effect`] that comes back.

mod clock;
pub mod config;
pub mod format;
pub mod hotkey;
pub mod overlay;
pub mod registration;
pub mod timer;
pub mod visibility;
