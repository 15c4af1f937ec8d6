use crossterm::event::{KeyCode, KeyModifiers};
use reedline::{default_emacs_keybindings, EditCommand, ReedlineEvent};
use suspendable_reedline::editor::{SuspendableReedline, INTERNAL_SUSPEND_MARKER};
use suspendable_reedline::keymap::{
    bind_suspend_key, clear_suspend_key, remap_suspend_key, CONTROL, SUSPEND_KEY_LOWER,
    SUSPEND_KEY_UPPER,
};

fn host_command(text: &str) -> Option<ReedlineEvent> {
    Some(ReedlineEvent::ExecuteHostCommand(text.to_string()))
}

#[test]
fn control_bit_is_the_terminal_library_s() {
    assert_eq!(CONTROL, KeyModifiers::CONTROL.bits());
    assert_eq!(KeyModifiers::from_bits_retain(CONTROL), KeyModifiers::CONTROL);
}

#[test]
fn suspend_key_has_two_forms() {
    assert_eq!(SUSPEND_KEY_LOWER, 'z');
    assert_eq!(SUSPEND_KEY_UPPER, 'Z');
}

#[test]
fn default_table_binds_suspend_chord_to_undo() {
    let table = default_emacs_keybindings();
    assert_eq!(
        table.find_binding(KeyModifiers::CONTROL, KeyCode::Char('z')),
        Some(ReedlineEvent::Edit(vec![EditCommand::Undo]))
    );
    assert_eq!(table.find_binding(KeyModifiers::CONTROL, KeyCode::Char('Z')), None);
}

#[test]
fn clear_removes_both_forms_and_nothing_else() {
    let mut table = default_emacs_keybindings();
    let before = table.get_keybindings().clone();
    clear_suspend_key(&mut table);
    assert_eq!(table.find_binding(KeyModifiers::CONTROL, KeyCode::Char('z')), None);
    assert_eq!(table.find_binding(KeyModifiers::CONTROL, KeyCode::Char('Z')), None);
    assert_eq!(table.get_keybindings().len(), before.len() - 1);
    for (chord, event) in before.iter() {
        if chord.modifier == KeyModifiers::CONTROL && chord.key_code == KeyCode::Char('z') {
            continue;
        }
        assert_eq!(table.get_keybindings().get(chord), Some(event));
    }
}

#[test]
fn clear_on_a_table_without_the_chord_changes_nothing() {
    let mut table = reedline::Keybindings::new();
    table.add_binding(KeyModifiers::ALT, KeyCode::Char('z'), ReedlineEvent::Enter);
    clear_suspend_key(&mut table);
    assert_eq!(table.get_keybindings().len(), 1);
    assert_eq!(
        table.find_binding(KeyModifiers::ALT, KeyCode::Char('z')),
        Some(ReedlineEvent::Enter)
    );
}

#[test]
fn bind_installs_the_marker_on_both_forms() {
    let mut table = reedline::Keybindings::new();
    bind_suspend_key(&mut table, "stop-now");
    assert_eq!(
        table.find_binding(KeyModifiers::CONTROL, KeyCode::Char('z')),
        host_command("stop-now")
    );
    assert_eq!(
        table.find_binding(KeyModifiers::CONTROL, KeyCode::Char('Z')),
        host_command("stop-now")
    );
    assert_eq!(table.get_keybindings().len(), 2);
}

#[test]
fn bind_overrides_an_earlier_binding() {
    let mut table = default_emacs_keybindings();
    let before = table.get_keybindings().len();
    bind_suspend_key(&mut table, "m");
    assert_eq!(table.find_binding(KeyModifiers::CONTROL, KeyCode::Char('z')), host_command("m"));
    assert_eq!(table.get_keybindings().len(), before + 1);
}

#[test]
fn remap_rebinds_suspend_chord_and_keeps_the_rest() {
    let mut table = default_emacs_keybindings();
    let before = table.get_keybindings().clone();
    remap_suspend_key(&mut table, INTERNAL_SUSPEND_MARKER);
    assert_eq!(
        table.find_binding(KeyModifiers::CONTROL, KeyCode::Char('z')),
        host_command(":::SUSPENDABLE_REEDLINE_SUSPEND:::")
    );
    assert_eq!(
        table.find_binding(KeyModifiers::CONTROL, KeyCode::Char('Z')),
        host_command(":::SUSPENDABLE_REEDLINE_SUSPEND:::")
    );
    assert_eq!(table.get_keybindings().len(), before.len() + 1);
    for (chord, event) in before.iter() {
        if chord.modifier == KeyModifiers::CONTROL && chord.key_code == KeyCode::Char('z') {
            continue;
        }
        assert_eq!(table.get_keybindings().get(chord), Some(event));
    }
    assert_eq!(
        table.find_binding(KeyModifiers::CONTROL, KeyCode::Char('c')),
        Some(ReedlineEvent::CtrlC)
    );
    assert_eq!(
        table.find_binding(KeyModifiers::CONTROL, KeyCode::Char('d')),
        Some(ReedlineEvent::CtrlD)
    );
    assert_eq!(
        table.find_binding(KeyModifiers::NONE, KeyCode::Enter),
        Some(ReedlineEvent::Enter)
    );
}

#[test]
fn remap_twice_is_remap_once() {
    let mut once = default_emacs_keybindings();
    remap_suspend_key(&mut once, "m");
    let mut twice = default_emacs_keybindings();
    remap_suspend_key(&mut twice, "m");
    remap_suspend_key(&mut twice, "m");
    assert_eq!(once.get_keybindings(), twice.get_keybindings());
}

#[test]
fn remap_leaves_other_modifiers_of_the_key_alone() {
    let mut table = reedline::Keybindings::new();
    table.add_binding(KeyModifiers::ALT, KeyCode::Char('z'), ReedlineEvent::Enter);
    table.add_binding(
        KeyModifiers::CONTROL | KeyModifiers::SHIFT,
        KeyCode::Char('Z'),
        ReedlineEvent::Esc,
    );
    remap_suspend_key(&mut table, "m");
    assert_eq!(
        table.find_binding(KeyModifiers::ALT, KeyCode::Char('z')),
        Some(ReedlineEvent::Enter)
    );
    assert_eq!(
        table.find_binding(KeyModifiers::CONTROL | KeyModifiers::SHIFT, KeyCode::Char('Z')),
        Some(ReedlineEvent::Esc)
    );
    assert_eq!(table.get_keybindings().len(), 4);
}

#[test]
fn default_table_emits_no_host_command() {
    let table = default_emacs_keybindings();
    for event in table.get_keybindings().values() {
        assert!(!matches!(event, ReedlineEvent::ExecuteHostCommand(_)));
    }
}

#[test]
fn created_editor_keeps_the_remapped_table() {
    let editor = SuspendableReedline::create();
    let table = editor.keybindings();
    let defaults = default_emacs_keybindings();
    assert_eq!(
        table.find_binding(KeyModifiers::CONTROL, KeyCode::Char('z')),
        host_command(INTERNAL_SUSPEND_MARKER)
    );
    assert_eq!(
        table.find_binding(KeyModifiers::CONTROL, KeyCode::Char('Z')),
        host_command(INTERNAL_SUSPEND_MARKER)
    );
    assert_eq!(table.get_keybindings().len(), defaults.get_keybindings().len() + 1);
    let mut emitters = 0;
    for (chord, event) in table.get_keybindings().iter() {
        if let ReedlineEvent::ExecuteHostCommand(text) = event {
            emitters += 1;
            assert_eq!(text, INTERNAL_SUSPEND_MARKER);
            assert_eq!(chord.modifier, KeyModifiers::CONTROL);
            assert!(chord.key_code == KeyCode::Char('z') || chord.key_code == KeyCode::Char('Z'));
        } else {
            assert_eq!(defaults.get_keybindings().get(chord), Some(event));
        }
    }
    assert_eq!(emitters, 2);
}

#[test]
fn created_editor_holds_the_reserved_marker() {
    let editor = SuspendableReedline::create();
    assert_eq!(editor.suspend_marker(), ":::SUSPENDABLE_REEDLINE_SUSPEND:::");
    assert_eq!(INTERNAL_SUSPEND_MARKER, ":::SUSPENDABLE_REEDLINE_SUSPEND:::");
}

#[test]
fn engine_of_a_created_editor_can_be_reached() {
    let mut editor = SuspendableReedline::create();
    let engine = editor.editor_mut();
    assert_eq!(engine.current_buffer_contents(), "");
    assert_eq!(editor.suspend_marker(), INTERNAL_SUSPEND_MARKER);
}

#[test]
fn editor_over_an_empty_table_binds_only_the_suspend_chord() {
    let editor = SuspendableReedline::over_table(reedline::Keybindings::new());
    let table = editor.keybindings();
    assert_eq!(table.get_keybindings().len(), 2);
    assert_eq!(
        table.find_binding(KeyModifiers::CONTROL, KeyCode::Char('z')),
        host_command(INTERNAL_SUSPEND_MARKER)
    );
    assert_eq!(
        table.find_binding(KeyModifiers::CONTROL, KeyCode::Char('Z')),
        host_command(INTERNAL_SUSPEND_MARKER)
    );
    assert_eq!(editor.suspend_marker(), INTERNAL_SUSPEND_MARKER);
}

#[test]
fn editor_over_a_table_keeps_its_other_chords() {
    let mut given = reedline::Keybindings::new();
    given.add_binding(KeyModifiers::CONTROL, KeyCode::Char('z'), ReedlineEvent::Esc);
    given.add_binding(KeyModifiers::ALT, KeyCode::Char('q'), ReedlineEvent::Enter);
    given.add_binding(KeyModifiers::NONE, KeyCode::Tab, ReedlineEvent::Menu("m".to_string()));
    let editor = SuspendableReedline::over_table(given);
    let table = editor.keybindings();
    assert_eq!(table.get_keybindings().len(), 4);
    assert_eq!(
        table.find_binding(KeyModifiers::CONTROL, KeyCode::Char('z')),
        host_command(INTERNAL_SUSPEND_MARKER)
    );
    assert_eq!(
        table.find_binding(KeyModifiers::CONTROL, KeyCode::Char('Z')),
        host_command(INTERNAL_SUSPEND_MARKER)
    );
    assert_eq!(
        table.find_binding(KeyModifiers::ALT, KeyCode::Char('q')),
        Some(ReedlineEvent::Enter)
    );
    assert_eq!(
        table.find_binding(KeyModifiers::NONE, KeyCode::Tab),
        Some(ReedlineEvent::Menu("m".to_string()))
    );
}

#[test]
fn editor_over_the_default_table_is_the_created_one() {
    let made = SuspendableReedline::over_table(default_emacs_keybindings());
    let created = SuspendableReedline::create();
    assert_eq!(
        made.keybindings().get_keybindings(),
        created.keybindings().get_keybindings()
    );
}
