//! The keeping of the hotkey registrations: which chord to register next,
//! what to do when the host refuses one, and what to give back on the way
//! out.

use vstd::prelude::*;
use crate::hotkey::{chord_at, chord_table, Chord, CHORD_COUNT};

verus! {

/// The registrations as a mathematical value.
pub struct RegistrarView {
    /// How many chords are held: the first `held` of the table.
    pub held: nat,
    /// Whether the host has refused a chord.
    pub failed: bool,
    /// Whether the registrations have been given back.
    pub closed: bool,
}

impl RegistrarView {
    /// Nothing is held yet.
    pub open spec fn initial() -> RegistrarView {
        RegistrarView { held: 0, failed: false, closed: false }
    }

    /// The chord to register next. There is none once every chord is held,
    /// once one was refused, or once the registrations were given back.
    pub open spec fn pending(self) -> Option<Chord> {
        if !self.failed && !self.closed && self.held < CHORD_COUNT {
            Some(chord_table()[self.held as int])
        } else {
            None
        }
    }

    /// The registrations after the host has answered for the pending chord.
    /// Without a pending chord the answer changes nothing.
    pub open spec fn record(self, acquired: bool) -> RegistrarView {
        if self.pending().is_none() {
            self
        } else if acquired {
            RegistrarView { held: self.held + 1, ..self }
        } else {
            RegistrarView { failed: true, ..self }
        }
    }

    /// Every chord is held and the event loop may run.
    pub open spec fn is_ready(self) -> bool {
        !self.failed && !self.closed && self.held == CHORD_COUNT
    }

    /// The chords that are held, in the order in which they were registered.
    pub open spec fn held_chords(self) -> Seq<Chord> {
        chord_table().take(self.held as int)
    }

    /// The registrations after everything held was given back.
    pub open spec fn release_all(self) -> RegistrarView {
        RegistrarView { held: 0, closed: true, ..self }
    }
}

/// Keeps track of the hotkey registrations from startup to shutdown. The
/// host registers and unregisters; this says which chord is next and
/// remembers what is held, so that each exit path gives back exactly what
/// was taken.
pub struct Registrar {
    held: usize,
    failed: bool,
    closed: bool,
}

impl View for Registrar {
    type V = RegistrarView;

    closed spec fn view(&self) -> RegistrarView {
        RegistrarView { held: self.held as nat, failed: self.failed, closed: self.closed }
    }
}

impl Registrar {
    #[verifier::type_invariant]
    spec fn well_formed(self) -> bool {
        &&& self.held <= CHORD_COUNT
        &&& self.failed ==> self.held < CHORD_COUNT
    }

    /// Nothing is held yet.
    pub fn new() -> (registrar: Registrar)
        ensures
            registrar@ == RegistrarView::initial(),
    {
        Registrar { held: 0, failed: false, closed: false }
    }

    /// The chord to register next, if there is one.
    pub fn pending(&self) -> (chord: Option<Chord>)
        ensures
            chord == self@.pending(),
    {
        if !self.failed && !self.closed && self.held < CHORD_COUNT {
            Some(chord_at(self.held))
        } else {
            None
        }
    }

    /// Takes the host's answer for the pending chord: it is held now, or
    /// registration has failed for good.
    pub fn record(&mut self, acquired: bool)
        ensures
            final(self)@ == old(self)@.record(acquired),
    {
        if !self.failed && !self.closed && self.held < CHORD_COUNT {
            if acquired {
                *self = Registrar { held: self.held + 1, failed: false, closed: false };
            } else {
                *self = Registrar { held: self.held, failed: true, closed: false };
            }
        }
    }

    /// Whether every chord is held, so that the event loop may run.
    pub fn is_ready(&self) -> (ready: bool)
        ensures
            ready == self@.is_ready(),
    {
        !self.failed && !self.closed && self.held == CHORD_COUNT
    }

    /// Whether the host has refused a chord. Startup ends here: the chord
    /// stays taken by its owner, so there is nothing to try again.
    pub fn has_failed(&self) -> (failed: bool)
        ensures
            failed == self@.failed,
            failed ==> !self@.is_ready() && self@.held < CHORD_COUNT,
    {
        proof {
            use_type_invariant(self);
        }
        self.failed
    }

    /// How many chords are held.
    pub fn held(&self) -> (held: usize)
        ensures
            held == self@.held,
            held <= CHORD_COUNT,
    {
        proof {
            use_type_invariant(self);
        }
        self.held
    }

    /// Gives back every registration: returns the chords for the host to
    /// unregister, the last one registered first, and holds nothing
    /// afterwards.
    pub fn release_all(&mut self) -> (released: Vec<Chord>)
        ensures
            released@ == old(self)@.held_chords().reverse(),
            final(self)@ == old(self)@.release_all(),
            final(self)@.pending().is_none(),
    {
        proof {
            use_type_invariant(&*self);
        }
        let mut released: Vec<Chord> = Vec::new();
        let mut left: usize = self.held;
        let ghost held = self@.held_chords();
        while left > 0
            invariant
                left <= self.held <= CHORD_COUNT,
                held == self@.held_chords(),
                released@ == held.reverse().take(self.held - left),
            decreases left,
        {
            left = left - 1;
            released.push(chord_at(left));
            assert(held.reverse()[self.held - left - 1] == chord_table()[left as int]);
            assert(released@ =~= held.reverse().take(self.held - left));
        }
        assert(released@ =~= held.reverse());
        *self = Registrar { held: 0, failed: self.failed, closed: true };
        released
    }
}

/// Once the registrations were given back nothing is held, no chord is
/// pending, and no answer from the host changes that. This holds on every
/// path: after success, after a refusal, and before any chord was taken.
pub proof fn release_is_final(registrar: RegistrarView, acquired: bool)
    ensures
        registrar.release_all().held_chords() =~= Seq::<Chord>::empty(),
        registrar.release_all().pending().is_none(),
        !registrar.release_all().is_ready(),
        registrar.release_all().record(acquired) == registrar.release_all(),
        registrar.release_all().release_all() == registrar.release_all(),
{
}

/// The chords are taken in the order of the table: after `n` chords were
/// granted in a row, the first `n` of the table are held, the next one is
/// pending, and the event loop may run exactly when all are held.
pub proof fn grants_fill_the_table(registrar: RegistrarView)
    requires
        registrar.pending().is_some(),
    ensures
        registrar.record(true).held_chords() =~= registrar.held_chords().push(
            registrar.pending().unwrap(),
        ),
        registrar.record(false).held_chords() =~= registrar.held_chords(),
        registrar.record(false).failed,
        registrar.record(false).pending().is_none(),
        registrar.record(true).is_ready() <==> registrar.held + 1 == CHORD_COUNT,
{
}

} // verus!
