//! What the chat actions of the panel do end to end: sending a prompt,
//! regenerating the last reply and saving an edited message each change the
//! chat and then send its request, and none of them does anything while a
//! request is in flight. Persisting the state and starting the network task
//! are left to the caller.

use crate::chat::ChatRole;
use crate::conversation::{
    chat_position, chats_data, message_ids, message_position_from, titled_by_prompt, with_chat,
    ChatData, EditOutcome,
};
use crate::requests::{sent_for_chat, RequestTracker};
use crate::storage::AppState;
use crate::text::{is_blank, trim};
use vstd::prelude::*;

verus! {

/// What sending a prompt or regenerating a reply came to.
#[derive(Debug)]
pub enum SendOutcome {
    /// A request is in flight; nothing changed.
    Busy,
    /// There was nothing to send; nothing changed.
    Skipped,
    /// The chat changed and its request was sent: the request id, or `None`
    /// when the request did not build and its error is shown.
    Sent(Option<u64>),
}

/// What saving an edited message came to.
#[derive(Debug)]
pub enum EditSendOutcome {
    /// A request is in flight; nothing changed and the edit stays open.
    Busy,
    /// The edited text is blank; nothing changed and the edit stays open.
    EmptyText,
    /// The message is gone; nothing changed and the edit is closed.
    NotFound,
    /// The message was replaced, the messages after it (`removed`) dropped,
    /// and the chat's request sent: its id, or `None` when it did not build.
    Sent { removed: Vec<u64>, request_id: Option<u64> },
}

/// Whether the active chat exists and has a model to send requests to.
pub open spec fn active_chat_has_model(st: AppState) -> bool {
    match chat_position(chats_data(st.chats@), st.active_chat_id) {
        Some(i) => !is_blank(chats_data(st.chats@)[i].model),
        None => false,
    }
}

/// The position of chat `chat_id` when its last message is the reply
/// `message_id`, the one reply that can be regenerated.
pub open spec fn last_reply_chat(data: Seq<ChatData>, chat_id: u64, message_id: u64) -> Option<int> {
    match chat_position(data, chat_id) {
        Some(i) => {
            let m = data[i].messages;
            if m.len() > 0 && m.last().0 == message_id && m.last().1 == ChatRole::Assistant {
                Some(i)
            } else {
                None
            }
        },
        None => None,
    }
}

/// Sends `prompt` in the active chat at time `now`: nothing while a request
/// is in flight, nor when the active chat has no model or the prompt is
/// blank. Else the trimmed prompt is added as a user message (see
/// `AppState::add_user_message`), the chat's error is cleared and its request
/// sent (see `RequestTracker::send_for_chat`).
pub fn submit_prompt(state: &mut AppState, tracker: &mut RequestTracker, prompt: &str, now: u64) -> (r:
    SendOutcome)
    requires
        old(tracker).next_request_id < u64::MAX,
        old(state).next_message_id < u64::MAX,
    ensures
        old(tracker).inflight is Some ==> r is Busy && *final(state) == *old(state) && *final(tracker) == *old(tracker),
        old(tracker).inflight is None && (!active_chat_has_model(*old(state)) || is_blank(prompt@))
            ==> r is Skipped && *final(state) == *old(state) && *final(tracker) == *old(tracker),
        old(tracker).inflight is None && active_chat_has_model(*old(state)) && !is_blank(prompt@)
            ==> ({
            let data = chats_data(old(state).chats@);
            let chat_id = old(state).active_chat_id;
            let i = chat_position(data, chat_id)->0;
            let t = trim(prompt@);
            &&& chats_data(final(state).chats@) == with_chat(
                data,
                i,
                titled_by_prompt(data[i].title, t),
                data[i].messages.push((old(state).next_message_id, ChatRole::User, t, now)),
                now,
            )
            &&& final(state).active_chat_id == chat_id
            &&& final(state).next_chat_id == old(state).next_chat_id
            &&& final(state).next_message_id == old(state).next_message_id + 1
            &&& final(state).settings == old(state).settings
            &&& r matches SendOutcome::Sent(id) && sent_for_chat(
                *old(tracker),
                *final(tracker),
                *final(state),
                chat_id,
                id,
            )
        }),
{
    if tracker.is_busy() {
        return SendOutcome::Busy;
    }
    if !state.has_selected_model() {
        return SendOutcome::Skipped;
    }
    let chat_id = state.active_chat_id;
    match state.add_user_message(prompt, now) {
        None => SendOutcome::Skipped,
        Some(_) => {
            tracker.clear_chat_error(chat_id);
            let id = tracker.send_for_chat(state, chat_id);
            SendOutcome::Sent(id)
        },
    }
}

/// Regenerates the reply `message_id` of the active chat at time `now`:
/// nothing while a request is in flight, nor unless that reply is the chat's
/// last message. Else the reply is removed (see
/// `AppState::remove_last_assistant`), the chat's error is cleared and its
/// request sent again.
pub fn regenerate_reply(
    state: &mut AppState,
    tracker: &mut RequestTracker,
    message_id: u64,
    now: u64,
) -> (r: SendOutcome)
    requires
        old(tracker).next_request_id < u64::MAX,
    ensures
        old(tracker).inflight is Some ==> r is Busy && *final(state) == *old(state) && *final(tracker) == *old(tracker),
        old(tracker).inflight is None ==> ({
            let data = chats_data(old(state).chats@);
            let chat_id = old(state).active_chat_id;
            match last_reply_chat(data, chat_id, message_id) {
                None => r is Skipped && *final(state) == *old(state) && *final(tracker) == *old(tracker),
                Some(i) => {
                    &&& chats_data(final(state).chats@) == with_chat(
                        data,
                        i,
                        data[i].title,
                        data[i].messages.drop_last(),
                        now,
                    )
                    &&& final(state).active_chat_id == chat_id
                    &&& final(state).next_chat_id == old(state).next_chat_id
                    &&& final(state).next_message_id == old(state).next_message_id
                    &&& final(state).settings == old(state).settings
                    &&& r matches SendOutcome::Sent(id) && sent_for_chat(
                        *old(tracker),
                        *final(tracker),
                        *final(state),
                        chat_id,
                        id,
                    )
                },
            }
        }),
{
    if tracker.is_busy() {
        return SendOutcome::Busy;
    }
    let chat_id = state.active_chat_id;
    if !state.remove_last_assistant(chat_id, message_id, now) {
        return SendOutcome::Skipped;
    }
    tracker.clear_chat_error(chat_id);
    let id = tracker.send_for_chat(state, chat_id);
    SendOutcome::Sent(id)
}

/// Saves `text` as the new content of the user message `message_id` of the
/// active chat at time `now`: nothing while a request is in flight or when
/// the text is blank, nor when the message is gone. Else the message is
/// replaced and the messages after it dropped (see
/// `AppState::edit_user_message`), the chat's error is cleared and its
/// request sent.
pub fn save_edited_message(
    state: &mut AppState,
    tracker: &mut RequestTracker,
    message_id: u64,
    text: &str,
    now: u64,
) -> (r: EditSendOutcome)
    requires
        old(tracker).next_request_id < u64::MAX,
    ensures
        old(tracker).inflight is Some ==> r is Busy && *final(state) == *old(state) && *final(tracker) == *old(tracker),
        old(tracker).inflight is None ==> ({
            let data = chats_data(old(state).chats@);
            let chat_id = old(state).active_chat_id;
            let t = trim(text@);
            if t.len() == 0 {
                r is EmptyText && *final(state) == *old(state) && *final(tracker) == *old(tracker)
            } else {
                match chat_position(data, chat_id) {
                    None => r is NotFound && *final(state) == *old(state) && *final(tracker)
                        == *old(tracker),
                    Some(i) => {
                        let m = data[i].messages;
                        match message_position_from(m, message_id, true, 0) {
                            None => r is NotFound && *final(state) == *old(state) && *final(tracker) == *old(tracker),
                            Some(j) => {
                                &&& chats_data(final(state).chats@) == with_chat(
                                    data,
                                    i,
                                    if j == 0 {
                                        crate::display::chat_title(t)
                                    } else {
                                        data[i].title
                                    },
                                    m.take(j + 1).update(j, (message_id, ChatRole::User, t, m[j].3)),
                                    now,
                                )
                                &&& final(state).active_chat_id == chat_id
                                &&& final(state).next_chat_id == old(state).next_chat_id
                                &&& final(state).next_message_id == old(state).next_message_id
                                &&& final(state).settings == old(state).settings
                                &&& r matches EditSendOutcome::Sent { removed, request_id }
                                    && removed@ == message_ids(m.skip(j + 1)) && sent_for_chat(
                                    *old(tracker),
                                    *final(tracker),
                                    *final(state),
                                    chat_id,
                                    request_id,
                                )
                            },
                        }
                    },
                }
            }
        }),
{
    if tracker.is_busy() {
        return EditSendOutcome::Busy;
    }
    let chat_id = state.active_chat_id;
    match state.edit_user_message(chat_id, message_id, text, now) {
        EditOutcome::EmptyText => EditSendOutcome::EmptyText,
        EditOutcome::NotFound => EditSendOutcome::NotFound,
        EditOutcome::Updated(removed) => {
            tracker.clear_chat_error(chat_id);
            let request_id = tracker.send_for_chat(state, chat_id);
            EditSendOutcome::Sent { removed, request_id }
        },
    }
}

} // verus!
