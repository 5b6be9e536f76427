//! The three global hotkeys, the commands they stand for, and the keeping of
//! their registrations.

use vstd::prelude::*;

verus! {

/// The identifier under which the start/pause chord is registered.
pub const HOTKEY_ID_START_PAUSE: i32 = 1;

/// The identifier under which the reset chord is registered.
pub const HOTKEY_ID_RESET: i32 = 2;

/// The identifier under which the transparency chord is registered.
pub const HOTKEY_ID_TOGGLE_TRANSPARENCY: i32 = 3;

/// The modifier mask of a chord that takes no modifier key.
pub const HOTKEY_MODIFIERS_NONE: u32 = 0x0000;

/// The modifier mask of a chord that takes Ctrl alone.
pub const HOTKEY_MODIFIERS_CTRL: u32 = 0x0002;

/// The virtual key of the start/pause chord: `[`.
pub const HOTKEY_VK_START_PAUSE: u32 = 0xDB;

/// The virtual key of the reset chord: `R`.
pub const HOTKEY_VK_RESET: u32 = 0x52;

/// The virtual key of the transparency chord: `'`.
pub const HOTKEY_VK_TOGGLE_TRANSPARENCY: u32 = 0xDE;

/// How many chords the overlay binds.
pub const CHORD_COUNT: usize = 3;

/// What a hotkey asks for.
#[derive(Clone, Copy, Debug, PartialEq, Eq)]
pub enum Command {
    /// Start the timer, or pause it if it runs.
    StartPause,
    /// Set the timer back to zero.
    Reset,
    /// Flip the window between opaque and transparent.
    ToggleTransparency,
}

/// A key together with its modifiers, and the identifier under which the
/// host registers the pair.
#[derive(Clone, Copy, Debug, PartialEq, Eq)]
pub struct Chord {
    pub id: i32,
    pub modifiers: u32,
    pub key: u32,
}

impl Chord {
    /// Whether the two chords press the same key with the same modifiers.
    pub open spec fn same_keys(self, other: Chord) -> bool {
        self.modifiers == other.modifiers && self.key == other.key
    }
}

/// The command bound to the identifier `id`, if there is one.
pub open spec fn command_of(id: int) -> Option<Command> {
    if id == HOTKEY_ID_START_PAUSE {
        Some(Command::StartPause)
    } else if id == HOTKEY_ID_RESET {
        Some(Command::Reset)
    } else if id == HOTKEY_ID_TOGGLE_TRANSPARENCY {
        Some(Command::ToggleTransparency)
    } else {
        None
    }
}

/// The chord that is bound to `command`.
pub open spec fn chord_of(command: Command) -> Chord {
    match command {
        Command::StartPause => Chord {
            id: HOTKEY_ID_START_PAUSE,
            modifiers: HOTKEY_MODIFIERS_NONE,
            key: HOTKEY_VK_START_PAUSE,
        },
        Command::Reset => Chord {
            id: HOTKEY_ID_RESET,
            modifiers: HOTKEY_MODIFIERS_CTRL,
            key: HOTKEY_VK_RESET,
        },
        Command::ToggleTransparency => Chord {
            id: HOTKEY_ID_TOGGLE_TRANSPARENCY,
            modifiers: HOTKEY_MODIFIERS_NONE,
            key: HOTKEY_VK_TOGGLE_TRANSPARENCY,
        },
    }
}

/// The chords in the order in which they are registered.
pub open spec fn chord_table() -> Seq<Chord> {
    seq![
        chord_of(Command::StartPause),
        chord_of(Command::Reset),
        chord_of(Command::ToggleTransparency),
    ]
}

/// The command bound to the identifier `id`, if there is one.
pub fn command_for(id: i32) -> (command: Option<Command>)
    ensures
        command == command_of(id as int),
{
    if id == HOTKEY_ID_START_PAUSE {
        Some(Command::StartPause)
    } else if id == HOTKEY_ID_RESET {
        Some(Command::Reset)
    } else if id == HOTKEY_ID_TOGGLE_TRANSPARENCY {
        Some(Command::ToggleTransparency)
    } else {
        None
    }
}

/// The chord that is bound to `command`.
pub fn chord_for(command: Command) -> (chord: Chord)
    ensures
        chord == chord_of(command),
{
    match command {
        Command::StartPause => Chord {
            id: HOTKEY_ID_START_PAUSE,
            modifiers: HOTKEY_MODIFIERS_NONE,
            key: HOTKEY_VK_START_PAUSE,
        },
        Command::Reset => Chord {
            id: HOTKEY_ID_RESET,
            modifiers: HOTKEY_MODIFIERS_CTRL,
            key: HOTKEY_VK_RESET,
        },
        Command::ToggleTransparency => Chord {
            id: HOTKEY_ID_TOGGLE_TRANSPARENCY,
            modifiers: HOTKEY_MODIFIERS_NONE,
            key: HOTKEY_VK_TOGGLE_TRANSPARENCY,
        },
    }
}

/// The chords in the order in which they are registered.
pub fn chords() -> (table: Vec<Chord>)
    ensures
        table@ == chord_table(),
{
    let mut table: Vec<Chord> = Vec::new();
    table.push(chord_for(Command::StartPause));
    table.push(chord_for(Command::Reset));
    table.push(chord_for(Command::ToggleTransparency));
    assert(table@ =~= chord_table());
    table
}

/// The chord at place `index` of the table.
pub(crate) fn chord_at(index: usize) -> (chord: Chord)
    requires
        index < CHORD_COUNT,
    ensures
        chord == chord_table()[index as int],
{
    if index == 0 {
        chord_for(Command::StartPause)
    } else if index == 1 {
        chord_for(Command::Reset)
    } else {
        chord_for(Command::ToggleTransparency)
    }
}

/// Every command is bound: its chord stands in the table, and the chord's
/// identifier leads back to the command. No two chords share an identifier,
/// and no two share a key with its modifiers.
pub proof fn chords_are_distinct(a: Command, b: Command)
    ensures
        chord_table().len() == CHORD_COUNT,
        chord_table().contains(chord_of(a)),
        command_of(chord_of(a).id as int) == Some(a),
        a != b ==> chord_of(a).id != chord_of(b).id,
        a != b ==> !chord_of(a).same_keys(chord_of(b)),
{
    let place: int = match a {
        Command::StartPause => 0,
        Command::Reset => 1,
        Command::ToggleTransparency => 2,
    };
    assert(chord_table()[place] == chord_of(a));
}

} // verus!
