//! The action buttons shown under a chat message: which actions a message
//! offers, and whether each button can be pressed and is shown.

use crate::chat::ChatRole;
use vstd::prelude::*;

verus! {

/// What a button under a message does.
#[derive(Debug, Clone, Copy, PartialEq, Eq, Structural)]
pub enum MessageAction {
    /// Starts editing a user message.
    Edit,
    /// Saves the message being edited.
    SaveEdit,
    /// Cancels the edit.
    CancelEdit,
    /// Copies the message text.
    Copy,
    /// Starts a new chat from the conversation up to this reply.
    Branch,
    /// Asks for the last reply again.
    Regenerate,
    /// Deletes the last reply.
    Delete,
    /// Asks again for a reply whose request failed.
    Retry,
}

/// A button under a message: its action, whether it reacts to a press, and
/// whether it is shown (a hidden button does not react either).
#[derive(Debug, Clone, Copy, PartialEq, Eq, Structural)]
pub struct ActionButton {
    pub action: MessageAction,
    pub enabled: bool,
    pub visible: bool,
}

pub open spec fn button(action: MessageAction, enabled: bool, visible: bool) -> ActionButton {
    ActionButton { action, enabled, visible }
}

/// The buttons under message `message_id` of the active chat, or `None` when
/// the message gets no row of buttons.
///
/// - A user message being edited gets Save and Cancel. Otherwise it gets Edit
///   and Copy, shown only while the message is hovered; Edit is disabled and
///   hidden while a request is in flight (`busy`).
/// - An assistant reply that is still streaming gets nothing; one whose
///   request failed gets only Retry. Otherwise it gets Copy and Branch (Branch
///   disabled while busy), and the last reply also gets Regenerate and Delete
///   when nothing is in flight.
/// - A system message gets nothing.
pub open spec fn offered_actions(
    role: ChatRole,
    message_id: u64,
    last_assistant_id: Option<u64>,
    streaming_id: Option<u64>,
    failed_id: Option<u64>,
    busy: bool,
    editing_id: Option<u64>,
    hovered_id: Option<u64>,
) -> Option<Seq<ActionButton>> {
    match role {
        ChatRole::User => if editing_id == Some(message_id) {
            Some(
                seq![
                    button(MessageAction::SaveEdit, true, true),
                    button(MessageAction::CancelEdit, true, true),
                ],
            )
        } else {
            let shown = hovered_id == Some(message_id);
            Some(
                seq![
                    button(MessageAction::Edit, !busy, shown && !busy),
                    button(MessageAction::Copy, true, shown),
                ],
            )
        },
        ChatRole::Assistant => if streaming_id == Some(message_id) {
            None
        } else if failed_id == Some(message_id) {
            Some(seq![button(MessageAction::Retry, true, true)])
        } else {
            let base = seq![
                button(MessageAction::Copy, true, true),
                button(MessageAction::Branch, !busy, true),
            ];
            if last_assistant_id == Some(message_id) && !busy {
                Some(
                    base + seq![
                        button(MessageAction::Regenerate, true, true),
                        button(MessageAction::Delete, true, true),
                    ],
                )
            } else {
                Some(base)
            }
        },
        ChatRole::System => None,
    }
}

pub open spec fn buttons_view(r: Option<Vec<ActionButton>>) -> Option<Seq<ActionButton>> {
    match r {
        Some(v) => Some(v@),
        None => None,
    }
}

fn same_id(a: Option<u64>, id: u64) -> (r: bool)
    ensures
        r == (a == Some(id)),
{
    match a {
        Some(x) => x == id,
        None => false,
    }
}

/// The buttons under a message (see `offered_actions`). `streaming_id` and
/// `failed_id` are the reply being streamed and the reply whose request failed
/// in the active chat; `busy` tells whether any request is in flight.
pub fn message_actions(
    role: ChatRole,
    message_id: u64,
    last_assistant_id: Option<u64>,
    streaming_id: Option<u64>,
    failed_id: Option<u64>,
    busy: bool,
    editing_id: Option<u64>,
    hovered_id: Option<u64>,
) -> (r: Option<Vec<ActionButton>>)
    ensures
        buttons_view(r) == offered_actions(
            role,
            message_id,
            last_assistant_id,
            streaming_id,
            failed_id,
            busy,
            editing_id,
            hovered_id,
        ),
{
    match role {
        ChatRole::User => {
            let mut v: Vec<ActionButton> = Vec::new();
            if same_id(editing_id, message_id) {
                v.push(ActionButton { action: MessageAction::SaveEdit, enabled: true, visible: true });
                v.push(
                    ActionButton { action: MessageAction::CancelEdit, enabled: true, visible: true },
                );
            } else {
                let shown = same_id(hovered_id, message_id);
                v.push(
                    ActionButton {
                        action: MessageAction::Edit,
                        enabled: !busy,
                        visible: shown && !busy,
                    },
                );
                v.push(ActionButton { action: MessageAction::Copy, enabled: true, visible: shown });
            }
            Some(v)
        },
        ChatRole::Assistant => {
            if same_id(streaming_id, message_id) {
                return None;
            }
            let mut v: Vec<ActionButton> = Vec::new();
            if same_id(failed_id, message_id) {
                v.push(ActionButton { action: MessageAction::Retry, enabled: true, visible: true });
                return Some(v);
            }
            v.push(ActionButton { action: MessageAction::Copy, enabled: true, visible: true });
            v.push(ActionButton { action: MessageAction::Branch, enabled: !busy, visible: true });
            if same_id(last_assistant_id, message_id) && !busy {
                v.push(
                    ActionButton { action: MessageAction::Regenerate, enabled: true, visible: true },
                );
                v.push(ActionButton { action: MessageAction::Delete, enabled: true, visible: true });
            }
            Some(v)
        },
        ChatRole::System => None,
    }
}

/// What was copied last; its copy button shows a confirmation until the copy expires.
#[derive(Debug, Clone, Copy, PartialEq, Eq, Structural)]
pub enum CopiedTarget {
    /// The text of a message.
    Message(u64),
    /// A code block of an assistant reply, by its position in the reply.
    CodeBlock { message_id: u64, block_index: usize },
    /// The prompt for moving personalization from another assistant.
    AiMigrationPrompt,
}

/// The icon of a copy button: a check mark when its text is the one copied
/// last, else the copy icon.
pub open spec fn copy_icon(copied: bool) -> Seq<char> {
    if copied {
        "object-select-symbolic"@
    } else {
        "edit-copy-symbolic"@
    }
}

fn copy_icon_name(copied: bool) -> (r: &'static str)
    ensures
        r@ == copy_icon(copied),
{
    if copied {
        "object-select-symbolic"
    } else {
        "edit-copy-symbolic"
    }
}

/// The icon of the copy button under message `message_id`.
pub fn message_copy_icon(copied: Option<CopiedTarget>, message_id: u64) -> (r: &'static str)
    ensures
        r@ == copy_icon(copied == Some(CopiedTarget::Message(message_id))),
{
    let hit = match copied {
        Some(CopiedTarget::Message(id)) => id == message_id,
        _ => false,
    };
    copy_icon_name(hit)
}

/// The icon of the copy button of code block `block_index` in reply `message_id`.
pub fn code_block_copy_icon(copied: Option<CopiedTarget>, message_id: u64, block_index: usize) -> (r:
    &'static str)
    ensures
        r@ == copy_icon(copied == Some(CopiedTarget::CodeBlock { message_id, block_index })),
{
    let hit = match copied {
        Some(CopiedTarget::CodeBlock { message_id: m, block_index: b }) => m == message_id && b
            == block_index,
        _ => false,
    };
    copy_icon_name(hit)
}

} // verus!
