//! The overlay as a whole: what each event from the host does to the timer
//! and to the window, and what the host is to do in return.

use vstd::prelude::*;
use crate::clock::Clock;
use crate::config::Config;
use crate::format::{clock_text, format_duration, NANOS_PER_SEC};
use crate::hotkey::{command_for, command_of, Command};
use crate::timer::{TimerState, TimerView};
use crate::visibility::{alpha_of, VisibilityState};

verus! {

/// What the host's event loop delivers.
#[derive(Clone, Copy, Debug, PartialEq, Eq)]
pub enum Event {
    /// The window was created.
    Create,
    /// The window is to be drawn.
    Paint,
    /// The redraw ticker fired.
    Tick,
    /// The hotkey registered under this identifier was pressed.
    HotkeyFired(i32),
    /// The window was destroyed.
    Destroy,
    /// Anything else.
    Other,
}

/// What the host is to do after an event.
#[derive(Debug, PartialEq, Eq)]
pub enum Effect {
    /// Make the font of the readout in this size, and start the redraw
    /// ticker with this period in milliseconds.
    Prepare { font_size: i32, tick_interval_ms: u64 },
    /// Apply this window alpha, if one is given, and then request a repaint.
    Repaint(Option<u8>),
    /// Draw this text in the readout.
    Draw(String),
    /// Leave the event loop.
    Quit,
    /// Hand the event to the host's default handling.
    Forward,
}

/// An effect as a mathematical value.
pub enum EffectView {
    Prepare { font_size: i32, tick_interval_ms: u64 },
    Repaint(Option<u8>),
    Draw(Seq<char>),
    Quit,
    Forward,
}

impl View for Effect {
    type V = EffectView;

    open spec fn view(&self) -> EffectView {
        match self {
            Effect::Prepare { font_size, tick_interval_ms } => EffectView::Prepare {
                font_size: *font_size,
                tick_interval_ms: *tick_interval_ms,
            },
            Effect::Repaint(alpha) => EffectView::Repaint(*alpha),
            Effect::Draw(text) => EffectView::Draw(text@),
            Effect::Quit => EffectView::Quit,
            Effect::Forward => EffectView::Forward,
        }
    }
}

/// The overlay as a mathematical value.
pub struct OverlayView {
    pub config: Config,
    pub timer: TimerView,
    pub transparent: bool,
    /// The latest clock reading that the overlay has seen.
    pub latest: nat,
}

impl OverlayView {
    /// A new overlay: the timer stopped at zero, the window opaque.
    pub open spec fn initial(config: Config) -> OverlayView {
        OverlayView { config, timer: TimerView::initial(), transparent: false, latest: 0 }
    }

    /// The timer has banked no more time than the clock has shown, and a run
    /// has begun no later than the latest reading. While this holds, the
    /// time to display never exceeds the reading at which it is asked for.
    pub open spec fn consistent(self) -> bool {
        match self.timer {
            TimerView::Stopped { accumulated } => accumulated <= self.latest,
            TimerView::Running { start, accumulated } => accumulated <= start <= self.latest,
        }
    }

    /// The overlay after `event`, which the host delivered at `now`.
    pub open spec fn step(self, event: Event, now: nat) -> OverlayView {
        let seen = OverlayView { latest: now, ..self };
        match event {
            Event::Create => OverlayView { transparent: false, ..seen },
            Event::HotkeyFired(id) => match command_of(id as int) {
                Some(Command::StartPause) => OverlayView { timer: self.timer.toggle(now), ..seen },
                Some(Command::Reset) => OverlayView { timer: self.timer.reset(now), ..seen },
                Some(Command::ToggleTransparency) => OverlayView {
                    transparent: !self.transparent,
                    ..seen
                },
                None => seen,
            },
            _ => seen,
        }
    }

    /// What the host is to do after `event`, which it delivered at `now`.
    /// Every hotkey asks for a repaint, whatever it did.
    pub open spec fn effect(self, event: Event, now: nat) -> EffectView {
        match event {
            Event::Create => EffectView::Prepare {
                font_size: self.config.font_size,
                tick_interval_ms: self.config.tick_interval_ms,
            },
            Event::Paint => EffectView::Draw(
                clock_text(self.timer.elapsed(now) / NANOS_PER_SEC as nat),
            ),
            Event::Tick => EffectView::Repaint(None),
            Event::HotkeyFired(id) => match command_of(id as int) {
                Some(Command::ToggleTransparency) => EffectView::Repaint(
                    Some(alpha_of(!self.transparent)),
                ),
                _ => EffectView::Repaint(None),
            },
            Event::Destroy => EffectView::Quit,
            Event::Other => EffectView::Forward,
        }
    }
}

/// The overlay: its settings, its timer, the visibility of its window, and
/// the clock it reads.
pub struct Overlay {
    config: Config,
    timer: TimerState,
    visibility: VisibilityState,
    clock: Clock,
    latest: u128,
}

impl View for Overlay {
    type V = OverlayView;

    closed spec fn view(&self) -> OverlayView {
        OverlayView {
            config: self.config,
            timer: self.timer@,
            transparent: self.visibility.transparent,
            latest: self.latest as nat,
        }
    }
}

impl Overlay {
    #[verifier::type_invariant]
    spec fn well_formed(self) -> bool {
        self@.consistent()
    }

    /// A new overlay with its own clock: the timer stopped at zero, the
    /// window opaque.
    pub fn new(config: Config) -> (overlay: Overlay)
        ensures
            overlay@ == OverlayView::initial(config),
            overlay@.consistent(),
    {
        Overlay {
            config,
            timer: TimerState::new(),
            visibility: VisibilityState::new(),
            clock: Clock::start(),
            latest: 0,
        }
    }

    /// The settings that the overlay was built with.
    pub fn config(&self) -> (config: &Config)
        ensures
            *config == self@.config,
    {
        &self.config
    }

    /// The timer.
    pub fn timer(&self) -> (timer: &TimerState)
        ensures
            timer@ == self@.timer,
    {
        &self.timer
    }

    /// The visibility of the window.
    pub fn visibility(&self) -> (visibility: &VisibilityState)
        ensures
            visibility.transparent == self@.transparent,
    {
        &self.visibility
    }

    /// The latest clock reading that the overlay has seen.
    pub fn latest(&self) -> (latest: u128)
        ensures
            latest == self@.latest,
            self@.consistent(),
    {
        proof {
            use_type_invariant(self);
        }
        self.latest
    }

    /// Takes the event that the host delivered at the clock reading `now`,
    /// and says what the host is to do. The clock is monotonic: `now` is no
    /// earlier than any reading handled before.
    pub fn handle(&mut self, event: Event, now: u128) -> (effect: Effect)
        requires
            now >= old(self)@.latest,
        ensures
            final(self)@ == old(self)@.step(event, now as nat),
            effect@ == old(self)@.effect(event, now as nat),
            event is HotkeyFired ==> effect@ is Repaint,
            final(self)@.consistent(),
    {
        proof {
            use_type_invariant(&*self);
        }
        self.latest = now;
        match event {
            Event::Create => {
                self.visibility = VisibilityState::new();
                Effect::Prepare {
                    font_size: self.config.font_size,
                    tick_interval_ms: self.config.tick_interval_ms,
                }
            },
            Event::Paint => Effect::Draw(format_duration(self.timer.elapsed(now))),
            Event::Tick => Effect::Repaint(None),
            Event::HotkeyFired(id) => match command_for(id) {
                Some(Command::StartPause) => {
                    let mut timer = self.timer;
                    timer.toggle(now);
                    self.timer = timer;
                    Effect::Repaint(None)
                },
                Some(Command::Reset) => {
                    let mut timer = self.timer;
                    timer.reset(now);
                    self.timer = timer;
                    Effect::Repaint(None)
                },
                Some(Command::ToggleTransparency) => {
                    let mut visibility = self.visibility;
                    let alpha: u8 = visibility.toggle();
                    self.visibility = visibility;
                    Effect::Repaint(Some(alpha))
                },
                None => Effect::Repaint(None),
            },
            Event::Destroy => Effect::Quit,
            Event::Other => Effect::Forward,
        }
    }

    /// Reads the clock and handles `event` at that reading. Returns the
    /// reading together with what the host is to do. A reading that lies
    /// before the latest one is taken as the latest, so time never runs
    /// backwards for the overlay.
    pub fn dispatch(&mut self, event: Event) -> (handled: (u128, Effect))
        ensures
            handled.0 >= old(self)@.latest,
            final(self)@ == old(self)@.step(event, handled.0 as nat),
            handled.1@ == old(self)@.effect(event, handled.0 as nat),
            final(self)@.consistent(),
    {
        let reading: u128 = self.clock.now();
        let now: u128 = if reading < self.latest { self.latest } else { reading };
        let effect = self.handle(event, now);
        (now, effect)
    }
}

/// Only a hotkey changes the timer, and only a hotkey or the creation of the
/// window changes its visibility: a tick, a paint and every other event
/// leave both as they were. The settings never change.
pub proof fn only_commands_change_state(overlay: OverlayView, event: Event, now: nat)
    ensures
        !(event is HotkeyFired) ==> overlay.step(event, now).timer == overlay.timer,
        !(event is HotkeyFired) && !(event is Create) ==> overlay.step(event, now).transparent
            == overlay.transparent,
        overlay.step(event, now).config == overlay.config,
        event is HotkeyFired ==> overlay.effect(event, now) is Repaint,
{
}

/// An overlay that is consistent stays so after every event that arrives no
/// earlier than the latest reading, and the time it displays at that reading
/// does not exceed the reading.
pub proof fn step_keeps_consistent(overlay: OverlayView, event: Event, now: nat)
    requires
        overlay.consistent(),
        now >= overlay.latest,
    ensures
        overlay.step(event, now).consistent(),
        overlay.step(event, now).latest == now,
        overlay.timer.elapsed(now) <= now,
        overlay.step(event, now).timer.elapsed(now) <= now,
        overlay.step(event, now).config == overlay.config,
        OverlayView::initial(overlay.config).consistent(),
{
}

} // verus!
