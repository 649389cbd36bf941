//! What a key press does in the panel's text editors (the composer and the
//! inline message editor): clipboard shortcuts, cursor motions, submitting,
//! and escaping.

use vstd::prelude::*;

verus! {

/// The named keys the editors treat specially; every other named key is `Other`.
#[derive(Debug, Clone, Copy, PartialEq, Eq, Structural)]
pub enum NamedKey {
    ArrowLeft,
    ArrowRight,
    ArrowUp,
    ArrowDown,
    Home,
    End,
    PageUp,
    PageDown,
    Enter,
    Backspace,
    Delete,
    Escape,
    Other,
}

/// The modifier keys held during a key press. `command` is the platform's
/// shortcut modifier.
#[derive(Debug, Clone, Copy, PartialEq, Eq, Structural)]
pub struct KeyModifiers {
    pub command: bool,
    pub alt: bool,
    pub control: bool,
    pub shift: bool,
}

/// A key press: the Latin character the key stands for in the current
/// layout (if any), the named key (if it is one), and the modifiers.
#[derive(Debug, Clone, Copy, PartialEq, Eq, Structural)]
pub struct KeyInput {
    pub latin: Option<char>,
    pub named: Option<NamedKey>,
    pub modifiers: KeyModifiers,
}

/// Where a cursor motion goes.
#[derive(Debug, Clone, Copy, PartialEq, Eq, Structural)]
pub enum CursorMotion {
    Left,
    Right,
    WordLeft,
    WordRight,
    Up,
    Down,
    Home,
    End,
    DocumentStart,
    DocumentEnd,
    PageUp,
    PageDown,
}

/// What a key press does in an editor.
#[derive(Debug, Clone, Copy, PartialEq, Eq, Structural)]
pub enum EditorAction {
    Copy,
    Cut,
    Paste,
    SelectAll,
    /// Moves the cursor.
    Move(CursorMotion),
    /// Extends the selection.
    Select(CursorMotion),
    /// Sends the text (the composer's prompt, or the edited message).
    Submit,
    /// Cancels the edit (editors that have an escape action).
    Escape,
    /// Leaves the editor (editors without an escape action).
    Unfocus,
    /// Deletes the word before the cursor.
    DeleteWordLeft,
    /// Deletes the word after the cursor.
    DeleteWordRight,
    Backspace,
    Delete,
    /// Whatever the editor does by default with this key press.
    Default,
}

/// The motion a named key stands for, when it is a motion key; `jump` (Ctrl
/// or Alt held) turns left/right into word steps and Home/End into the
/// document's start and end.
pub open spec fn key_motion(named: NamedKey, jump: bool) -> Option<CursorMotion> {
    match named {
        NamedKey::ArrowLeft => Some(
            if jump {
                CursorMotion::WordLeft
            } else {
                CursorMotion::Left
            },
        ),
        NamedKey::ArrowRight => Some(
            if jump {
                CursorMotion::WordRight
            } else {
                CursorMotion::Right
            },
        ),
        NamedKey::ArrowUp => Some(CursorMotion::Up),
        NamedKey::ArrowDown => Some(CursorMotion::Down),
        NamedKey::Home => Some(
            if jump {
                CursorMotion::DocumentStart
            } else {
                CursorMotion::Home
            },
        ),
        NamedKey::End => Some(
            if jump {
                CursorMotion::DocumentEnd
            } else {
                CursorMotion::End
            },
        ),
        NamedKey::PageUp => Some(CursorMotion::PageUp),
        NamedKey::PageDown => Some(CursorMotion::PageDown),
        _ => None,
    }
}

/// The clipboard shortcut a Latin key stands for with the command modifier
/// held (paste not with Alt as well).
pub open spec fn shortcut_action(c: char, m: KeyModifiers) -> Option<EditorAction> {
    if !m.command {
        None
    } else if c == 'c' || c == 'C' {
        Some(EditorAction::Copy)
    } else if c == 'x' || c == 'X' {
        Some(EditorAction::Cut)
    } else if (c == 'v' || c == 'V') && !m.alt {
        Some(EditorAction::Paste)
    } else if c == 'a' || c == 'A' {
        Some(EditorAction::SelectAll)
    } else {
        None
    }
}

/// What a named key does once motions are ruled out.
pub open spec fn named_key_action(named: NamedKey, m: KeyModifiers, has_escape_action: bool) -> Option<
    EditorAction,
> {
    let jump = m.control || m.alt;
    match named {
        NamedKey::Enter => if !m.shift {
            Some(EditorAction::Submit)
        } else {
            None
        },
        NamedKey::Backspace => Some(
            if jump {
                EditorAction::DeleteWordLeft
            } else {
                EditorAction::Backspace
            },
        ),
        NamedKey::Delete => Some(
            if jump {
                EditorAction::DeleteWordRight
            } else {
                EditorAction::Delete
            },
        ),
        NamedKey::Escape => Some(
            if has_escape_action {
                EditorAction::Escape
            } else {
                EditorAction::Unfocus
            },
        ),
        _ => None,
    }
}

/// What a key press does: a clipboard shortcut first, then a cursor motion
/// (selecting with Shift), then Enter (submitting unless Shift is held),
/// Backspace/Delete (a whole word with Ctrl or Alt) and Escape; anything
/// else is left to the editor's default.
pub open spec fn key_action(input: KeyInput, has_escape_action: bool) -> EditorAction {
    let m = input.modifiers;
    let shortcut = match input.latin {
        Some(c) => shortcut_action(c, m),
        None => None,
    };
    match shortcut {
        Some(a) => a,
        None => match input.named {
            Some(named) => match key_motion(named, m.control || m.alt) {
                Some(motion) => if m.shift {
                    EditorAction::Select(motion)
                } else {
                    EditorAction::Move(motion)
                },
                None => match named_key_action(named, m, has_escape_action) {
                    Some(a) => a,
                    None => EditorAction::Default,
                },
            },
            None => EditorAction::Default,
        },
    }
}

fn shortcut_for(c: char, m: KeyModifiers) -> (r: Option<EditorAction>)
    ensures
        r == shortcut_action(c, m),
{
    if !m.command {
        None
    } else if c == 'c' || c == 'C' {
        Some(EditorAction::Copy)
    } else if c == 'x' || c == 'X' {
        Some(EditorAction::Cut)
    } else if (c == 'v' || c == 'V') && !m.alt {
        Some(EditorAction::Paste)
    } else if c == 'a' || c == 'A' {
        Some(EditorAction::SelectAll)
    } else {
        None
    }
}

fn motion_for(named: NamedKey, jump: bool) -> (r: Option<CursorMotion>)
    ensures
        r == key_motion(named, jump),
{
    match named {
        NamedKey::ArrowLeft => Some(
            if jump {
                CursorMotion::WordLeft
            } else {
                CursorMotion::Left
            },
        ),
        NamedKey::ArrowRight => Some(
            if jump {
                CursorMotion::WordRight
            } else {
                CursorMotion::Right
            },
        ),
        NamedKey::ArrowUp => Some(CursorMotion::Up),
        NamedKey::ArrowDown => Some(CursorMotion::Down),
        NamedKey::Home => Some(
            if jump {
                CursorMotion::DocumentStart
            } else {
                CursorMotion::Home
            },
        ),
        NamedKey::End => Some(
            if jump {
                CursorMotion::DocumentEnd
            } else {
                CursorMotion::End
            },
        ),
        NamedKey::PageUp => Some(CursorMotion::PageUp),
        NamedKey::PageDown => Some(CursorMotion::PageDown),
        _ => None,
    }
}

/// What `input` does in an editor; `has_escape_action` tells whether the
/// editor has its own escape action (the inline message editor does, the
/// composer does not).
pub fn editor_key_action(input: KeyInput, has_escape_action: bool) -> (r: EditorAction)
    ensures
        r == key_action(input, has_escape_action),
{
    let m = input.modifiers;
    let shortcut = match input.latin {
        Some(c) => shortcut_for(c, m),
        None => None,
    };
    if let Some(a) = shortcut {
        return a;
    }
    let named = match input.named {
        Some(n) => n,
        None => {
            return EditorAction::Default;
        },
    };
    let jump = m.control || m.alt;
    if let Some(motion) = motion_for(named, jump) {
        return if m.shift {
            EditorAction::Select(motion)
        } else {
            EditorAction::Move(motion)
        };
    }
    match named {
        NamedKey::Enter => if !m.shift {
            EditorAction::Submit
        } else {
            EditorAction::Default
        },
        NamedKey::Backspace => if jump {
            EditorAction::DeleteWordLeft
        } else {
            EditorAction::Backspace
        },
        NamedKey::Delete => if jump {
            EditorAction::DeleteWordRight
        } else {
            EditorAction::Delete
        },
        NamedKey::Escape => if has_escape_action {
            EditorAction::Escape
        } else {
            EditorAction::Unfocus
        },
        _ => EditorAction::Default,
    }
}

/// In the composer, Enter without Shift sends the prompt and Shift+Enter
/// does not: it is left to the editor, which inserts a line break.
pub proof fn law_enter_submits_unless_shifted(m: KeyModifiers, has_escape_action: bool)
    ensures
        key_action(
            KeyInput { latin: None, named: Some(NamedKey::Enter), modifiers: m },
            has_escape_action,
        ) == if m.shift {
            EditorAction::Default
        } else {
            EditorAction::Submit
        },
{
}

} // verus!
