use cosmic_ai_panel::chat::ChatRole;
use cosmic_ai_panel::message_actions::{
    code_block_copy_icon, message_actions, message_copy_icon, ActionButton, CopiedTarget,
    MessageAction,
};

fn b(action: MessageAction, enabled: bool, visible: bool) -> ActionButton {
    ActionButton {
        action,
        enabled,
        visible,
    }
}

#[test]
fn user_messages_offer_edit_and_copy_on_hover() {
    assert_eq!(
        message_actions(ChatRole::User, 3, None, None, None, false, None, Some(3)),
        Some(vec![
            b(MessageAction::Edit, true, true),
            b(MessageAction::Copy, true, true)
        ])
    );
    assert_eq!(
        message_actions(ChatRole::User, 3, None, None, None, false, None, Some(4)),
        Some(vec![
            b(MessageAction::Edit, true, false),
            b(MessageAction::Copy, true, false)
        ])
    );
    assert_eq!(
        message_actions(ChatRole::User, 3, None, None, None, true, None, Some(3)),
        Some(vec![
            b(MessageAction::Edit, false, false),
            b(MessageAction::Copy, true, true)
        ])
    );
    assert_eq!(
        message_actions(ChatRole::User, 3, None, None, None, false, Some(3), None),
        Some(vec![
            b(MessageAction::SaveEdit, true, true),
            b(MessageAction::CancelEdit, true, true)
        ])
    );
}

#[test]
fn assistant_replies_offer_copy_branch_and_last_reply_actions() {
    assert_eq!(
        message_actions(ChatRole::Assistant, 8, Some(8), None, None, false, None, None),
        Some(vec![
            b(MessageAction::Copy, true, true),
            b(MessageAction::Branch, true, true),
            b(MessageAction::Regenerate, true, true),
            b(MessageAction::Delete, true, true)
        ])
    );
    assert_eq!(
        message_actions(ChatRole::Assistant, 8, Some(8), None, None, true, None, None),
        Some(vec![
            b(MessageAction::Copy, true, true),
            b(MessageAction::Branch, false, true)
        ])
    );
    assert_eq!(
        message_actions(ChatRole::Assistant, 6, Some(8), None, None, false, None, None),
        Some(vec![
            b(MessageAction::Copy, true, true),
            b(MessageAction::Branch, true, true)
        ])
    );
    assert_eq!(
        message_actions(ChatRole::Assistant, 8, Some(8), Some(8), None, true, None, None),
        None
    );
    assert_eq!(
        message_actions(ChatRole::Assistant, 8, Some(8), None, Some(8), false, None, None),
        Some(vec![b(MessageAction::Retry, true, true)])
    );
    assert_eq!(
        message_actions(ChatRole::System, 1, None, None, None, false, None, Some(1)),
        None
    );
}

#[test]
fn copy_buttons_confirm_only_the_copied_text() {
    assert_eq!(message_copy_icon(None, 4), "edit-copy-symbolic");
    assert_eq!(
        message_copy_icon(Some(CopiedTarget::Message(4)), 4),
        "object-select-symbolic"
    );
    assert_eq!(
        message_copy_icon(Some(CopiedTarget::Message(5)), 4),
        "edit-copy-symbolic"
    );
    let block = CopiedTarget::CodeBlock {
        message_id: 4,
        block_index: 1,
    };
    assert_eq!(message_copy_icon(Some(block), 4), "edit-copy-symbolic");
    assert_eq!(code_block_copy_icon(Some(block), 4, 1), "object-select-symbolic");
    assert_eq!(code_block_copy_icon(Some(block), 4, 0), "edit-copy-symbolic");
    assert_eq!(
        code_block_copy_icon(Some(CopiedTarget::AiMigrationPrompt), 4, 1),
        "edit-copy-symbolic"
    );
}
