//! Whether the window is opaque or nearly invisible.

use vstd::prelude::*;

verus! {

/// The window alpha of an opaque overlay.
pub const ALPHA_OPAQUE: u8 = 255;

/// The window alpha of a transparent overlay: faint, but not gone.
pub const ALPHA_TRANSPARENT: u8 = 8;

/// The window alpha that goes with each state. Nothing lies between the two
/// levels.
pub open spec fn alpha_of(transparent: bool) -> u8 {
    if transparent {
        ALPHA_TRANSPARENT
    } else {
        ALPHA_OPAQUE
    }
}

/// The visibility of the window.
#[derive(Clone, Copy, Debug, PartialEq, Eq)]
pub struct VisibilityState {
    pub transparent: bool,
}

impl VisibilityState {
    /// The other state.
    pub open spec fn toggled(self) -> VisibilityState {
        VisibilityState { transparent: !self.transparent }
    }

    /// An opaque window.
    pub fn new() -> (state: VisibilityState)
        ensures
            !state.transparent,
    {
        VisibilityState { transparent: false }
    }

    /// Whether the window is transparent.
    pub fn is_transparent(&self) -> (transparent: bool)
        ensures
            transparent == self.transparent,
    {
        self.transparent
    }

    /// The window alpha of this state.
    pub fn alpha(&self) -> (alpha: u8)
        ensures
            alpha == alpha_of(self.transparent),
    {
        if self.transparent {
            ALPHA_TRANSPARENT
        } else {
            ALPHA_OPAQUE
        }
    }

    /// Flips between opaque and transparent, and returns the window alpha to
    /// apply.
    pub fn toggle(&mut self) -> (alpha: u8)
        ensures
            *final(self) == old(self).toggled(),
            alpha == alpha_of(final(self).transparent),
    {
        self.transparent = !self.transparent;
        self.alpha()
    }
}

/// Two toggles in a row bring back the state, and with it the alpha, that the
/// window had before.
pub proof fn toggle_is_self_inverse(state: VisibilityState)
    ensures
        state.toggled().toggled() == state,
        alpha_of(state.toggled().toggled().transparent) == alpha_of(state.transparent),
        alpha_of(state.toggled().transparent) != alpha_of(state.transparent),
{
}

} // verus!
