use cosmic_ai_panel::keys::{
    editor_key_action, CursorMotion, EditorAction, KeyInput, KeyModifiers, NamedKey,
};

fn mods(command: bool, alt: bool, control: bool, shift: bool) -> KeyModifiers {
    KeyModifiers {
        command,
        alt,
        control,
        shift,
    }
}

fn named(key: NamedKey, modifiers: KeyModifiers) -> KeyInput {
    KeyInput {
        latin: None,
        named: Some(key),
        modifiers,
    }
}

fn letter(c: char, modifiers: KeyModifiers) -> KeyInput {
    KeyInput {
        latin: Some(c),
        named: None,
        modifiers,
    }
}

#[test]
fn enter_submits_and_shift_enter_does_not() {
    let plain = mods(false, false, false, false);
    let shift = mods(false, false, false, true);
    assert_eq!(editor_key_action(named(NamedKey::Enter, plain), false), EditorAction::Submit);
    assert_eq!(editor_key_action(named(NamedKey::Enter, shift), false), EditorAction::Default);
}

#[test]
fn clipboard_shortcuts_need_command() {
    let command = mods(true, false, false, false);
    assert_eq!(editor_key_action(letter('c', command), false), EditorAction::Copy);
    assert_eq!(editor_key_action(letter('X', command), false), EditorAction::Cut);
    assert_eq!(editor_key_action(letter('v', command), false), EditorAction::Paste);
    assert_eq!(
        editor_key_action(letter('v', mods(true, true, false, false)), false),
        EditorAction::Default
    );
    assert_eq!(editor_key_action(letter('a', command), false), EditorAction::SelectAll);
    assert_eq!(
        editor_key_action(letter('c', mods(false, false, false, false)), false),
        EditorAction::Default
    );
}

#[test]
fn motions_jump_and_select() {
    let plain = mods(false, false, false, false);
    let control = mods(false, false, true, false);
    let shift_alt = mods(false, true, false, true);
    assert_eq!(
        editor_key_action(named(NamedKey::ArrowLeft, plain), false),
        EditorAction::Move(CursorMotion::Left)
    );
    assert_eq!(
        editor_key_action(named(NamedKey::ArrowLeft, control), false),
        EditorAction::Move(CursorMotion::WordLeft)
    );
    assert_eq!(
        editor_key_action(named(NamedKey::End, shift_alt), false),
        EditorAction::Select(CursorMotion::DocumentEnd)
    );
    assert_eq!(
        editor_key_action(named(NamedKey::PageDown, plain), false),
        EditorAction::Move(CursorMotion::PageDown)
    );
}

#[test]
fn deletion_and_escape() {
    let plain = mods(false, false, false, false);
    let alt = mods(false, true, false, false);
    assert_eq!(editor_key_action(named(NamedKey::Backspace, plain), false), EditorAction::Backspace);
    assert_eq!(
        editor_key_action(named(NamedKey::Backspace, alt), false),
        EditorAction::DeleteWordLeft
    );
    assert_eq!(
        editor_key_action(named(NamedKey::Delete, alt), false),
        EditorAction::DeleteWordRight
    );
    assert_eq!(editor_key_action(named(NamedKey::Escape, plain), true), EditorAction::Escape);
    assert_eq!(editor_key_action(named(NamedKey::Escape, plain), false), EditorAction::Unfocus);
    assert_eq!(editor_key_action(named(NamedKey::Other, plain), false), EditorAction::Default);
}
