use timer_overlay::hotkey::{
    chord_for, chords, command_for, Chord, Command, CHORD_COUNT, HOTKEY_ID_RESET,
    HOTKEY_ID_START_PAUSE, HOTKEY_ID_TOGGLE_TRANSPARENCY, HOTKEY_MODIFIERS_CTRL,
    HOTKEY_MODIFIERS_NONE, HOTKEY_VK_RESET, HOTKEY_VK_START_PAUSE, HOTKEY_VK_TOGGLE_TRANSPARENCY,
};

#[test]
fn the_identifiers_and_keys() {
    assert_eq!(HOTKEY_ID_START_PAUSE, 1);
    assert_eq!(HOTKEY_ID_RESET, 2);
    assert_eq!(HOTKEY_ID_TOGGLE_TRANSPARENCY, 3);
    assert_eq!(HOTKEY_MODIFIERS_NONE, 0);
    assert_eq!(HOTKEY_MODIFIERS_CTRL, 2);
    assert_eq!(HOTKEY_VK_START_PAUSE, 0xDB);
    assert_eq!(HOTKEY_VK_RESET, 0x52);
    assert_eq!(HOTKEY_VK_TOGGLE_TRANSPARENCY, 0xDE);
    assert_eq!(CHORD_COUNT, 3);
}

#[test]
fn each_identifier_has_its_command() {
    assert_eq!(command_for(1), Some(Command::StartPause));
    assert_eq!(command_for(2), Some(Command::Reset));
    assert_eq!(command_for(3), Some(Command::ToggleTransparency));
}

#[test]
fn other_identifiers_have_no_command() {
    assert_eq!(command_for(0), None);
    assert_eq!(command_for(4), None);
    assert_eq!(command_for(-1), None);
    assert_eq!(command_for(i32::MAX), None);
    assert_eq!(command_for(i32::MIN), None);
}

#[test]
fn each_command_has_its_chord() {
    assert_eq!(chord_for(Command::StartPause), Chord { id: 1, modifiers: 0, key: 0xDB });
    assert_eq!(chord_for(Command::Reset), Chord { id: 2, modifiers: 2, key: 0x52 });
    assert_eq!(chord_for(Command::ToggleTransparency), Chord { id: 3, modifiers: 0, key: 0xDE });
}

#[test]
fn the_table_lists_the_chords_in_order() {
    let table = chords();
    assert_eq!(table.len(), CHORD_COUNT);
    assert_eq!(table[0], chord_for(Command::StartPause));
    assert_eq!(table[1], chord_for(Command::Reset));
    assert_eq!(table[2], chord_for(Command::ToggleTransparency));
}

#[test]
fn a_chord_leads_back_to_its_command() {
    let commands = vec![Command::StartPause, Command::Reset, Command::ToggleTransparency];
    for command in &commands {
        assert_eq!(command_for(chord_for(*command).id), Some(*command));
    }
}

#[test]
fn no_two_chords_collide() {
    let table = chords();
    let mut i: usize = 0;
    while i < table.len() {
        let mut j: usize = i + 1;
        while j < table.len() {
            let a = table[i];
            let b = table[j];
            assert_ne!(a.id, b.id);
            assert!(a.modifiers != b.modifiers || a.key != b.key);
            j += 1;
        }
        i += 1;
    }
}
