//! Bookkeeping of the provider request in flight: which request the panel is
//! waiting for, which events still belong to it, and the error shown when a
//! request fails. Starting and aborting the network task is left to the
//! caller; this decides what each event means for the state.

use crate::conversation::{chat_position, chats_data, message_position_from, same_settings};
use crate::provider::ProviderRequest;
use crate::storage::AppState;
use vstd::prelude::*;

verus! {

/// The request the panel is waiting for.
#[derive(Debug)]
pub struct InflightRequest {
    pub request_id: u64,
    pub chat_id: u64,
    pub request: ProviderRequest,
    /// The assistant message the streamed reply is written into, once the
    /// first piece has arrived.
    pub assistant_message_id: Option<u64>,
}

/// The error shown under a chat whose request failed.
#[derive(Debug)]
pub struct ChatErrorState {
    pub chat_id: u64,
    pub message: String,
    pub request: ProviderRequest,
    pub assistant_message_id: Option<u64>,
}

/// The request in flight, the next request id, the chat waiting for its
/// first reply, and the last request error.
#[derive(Debug)]
pub struct RequestTracker {
    pub inflight: Option<InflightRequest>,
    pub next_request_id: u64,
    pub loading_chat_id: Option<u64>,
    pub chat_error: Option<ChatErrorState>,
}

/// The request and chat ids of the request in flight.
pub open spec fn inflight_ids(t: RequestTracker) -> Option<(u64, u64)> {
    match t.inflight {
        Some(i) => Some((i.request_id, i.chat_id)),
        None => None,
    }
}

/// Whether an event of request `request_id` for chat `chat_id` belongs to
/// the request in flight.
pub open spec fn is_current(t: RequestTracker, request_id: u64, chat_id: u64) -> bool {
    inflight_ids(t) == Some((request_id, chat_id))
}

pub open spec fn error_chat(t: RequestTracker) -> Option<u64> {
    match t.chat_error {
        Some(e) => Some(e.chat_id),
        None => None,
    }
}

/// The request for the chat `chat_id` of the state, built with the stored
/// OpenRouter key; "Chat not found." when there is no such chat.
pub open spec fn request_for_chat(st: AppState, chat_id: u64) -> Result<
    crate::provider::RequestView,
    Seq<char>,
> {
    match chat_position(chats_data(st.chats@), chat_id) {
        Some(i) => crate::provider::chat_request(
            st.settings@,
            Some(st.settings@.provider.openrouter_api_key),
            st.chats@[i].provider,
            st.chats@[i].model@,
            st.chats@[i].messages@,
        ),
        None => Err("Chat not found."@),
    }
}

/// The empty request kept with an error raised before any request was built.
pub open spec fn placeholder_request(provider: crate::chat::ProviderKind) -> crate::provider::RequestView {
    crate::provider::RequestView {
        provider,
        endpoint: Seq::empty(),
        api_key: None,
        model: Seq::empty(),
        messages: Seq::empty(),
    }
}

fn placeholder(provider: crate::chat::ProviderKind) -> (r: ProviderRequest)
    ensures
        r@ == placeholder_request(provider),
{
    let r = ProviderRequest {
        provider,
        endpoint: String::new(),
        api_key: None,
        model: String::new(),
        messages: Vec::new(),
    };
    assert(r@ =~= placeholder_request(provider));
    r
}

/// What sending the request of chat `chat_id` of `st` does to a tracker with
/// nothing in flight, from `before` to `after`, returning `r`: when the request
/// builds, it is started under the next request id, which is returned; when it
/// does not, the error is kept for the chat with an empty request and nothing
/// else changes.
pub open spec fn sent_for_chat(
    before: RequestTracker,
    after: RequestTracker,
    st: AppState,
    chat_id: u64,
    r: Option<u64>,
) -> bool {
    match request_for_chat(st, chat_id) {
        Ok(req) => {
            &&& r == Some(before.next_request_id)
            &&& after.next_request_id == before.next_request_id + 1
            &&& (after.inflight matches Some(i) && i.request_id == before.next_request_id
                && i.chat_id == chat_id && i.request@ == req && i.assistant_message_id is None)
            &&& after.loading_chat_id == Some(chat_id)
            &&& after.chat_error is None
        },
        Err(e) => {
            &&& r is None
            &&& after.next_request_id == before.next_request_id
            &&& after.inflight == before.inflight
            &&& after.loading_chat_id == before.loading_chat_id
            &&& (after.chat_error matches Some(err) && err.chat_id == chat_id && err.message@ == e
                && err.request@ == placeholder_request(st.settings.provider.active_provider)
                && err.assistant_message_id is None)
        },
    }
}

impl RequestTracker {
    /// Nothing in flight, no error; request ids start at 1.
    pub fn new() -> (r: Self)
        ensures
            r.inflight is None,
            r.next_request_id == 1,
            r.loading_chat_id is None,
            r.chat_error is None,
    {
        RequestTracker { inflight: None, next_request_id: 1, loading_chat_id: None, chat_error: None }
    }

    /// Whether a request is in flight (new requests wait until it ends).
    pub fn is_busy(&self) -> (r: bool)
        ensures
            r == self.inflight is Some,
    {
        self.inflight.is_some()
    }

    /// Records `request` for chat `chat_id` as the request in flight, under
    /// a fresh request id that is returned; the chat waits for its first
    /// reply and any shown error is cleared.
    pub fn start(&mut self, chat_id: u64, request: ProviderRequest) -> (r: u64)
        requires
            old(self).next_request_id < u64::MAX,
        ensures
            r == old(self).next_request_id,
            final(self).next_request_id == old(self).next_request_id + 1,
            (final(self).inflight matches Some(i) && i.request_id == r && i.chat_id == chat_id
                && i.request == request && i.assistant_message_id is None),
            final(self).loading_chat_id == Some(chat_id),
            final(self).chat_error is None,
    {
        let request_id = self.next_request_id;
        self.next_request_id = self.next_request_id + 1;
        self.loading_chat_id = Some(chat_id);
        self.chat_error = None;
        self.inflight = Some(
            InflightRequest { request_id, chat_id, request, assistant_message_id: None },
        );
        request_id
    }

    /// Folds a streamed piece into the chat at time `now` when it belongs to
    /// the request in flight (see `AppState::apply_assistant_delta`), remembering which
    /// message the reply goes into; pieces of other requests and empty pieces
    /// change nothing. Returns whether the piece was applied.
    pub fn on_delta(
        &mut self,
        state: &mut AppState,
        request_id: u64,
        chat_id: u64,
        delta: &str,
        now: u64,
    ) -> (r: bool)
        requires
            delta@.len() > 0 && is_current(*old(self), request_id, chat_id) && old(
                self,
            ).inflight->0.assistant_message_id is None ==> old(state).next_message_id < u64::MAX,
        ensures
            r == (delta@.len() > 0 && is_current(*old(self), request_id, chat_id)),
            !r ==> *final(self) == *old(self) && *final(state) == *old(state),
            r ==> ({
                let current = old(self).inflight->0.assistant_message_id;
                let data = chats_data(old(state).chats@);
                &&& final(self).loading_chat_id is None
                &&& final(self).next_request_id == old(self).next_request_id
                &&& final(self).chat_error == old(self).chat_error
                &&& final(self).inflight matches Some(i) && i.request_id == request_id
                    && i.chat_id == chat_id && i.request == old(self).inflight->0.request
                    && i.assistant_message_id == Some(
                    match current {
                        Some(m) => m,
                        None => old(state).next_message_id,
                    },
                )
                &&& final(state).active_chat_id == old(state).active_chat_id
                &&& final(state).next_chat_id == old(state).next_chat_id
                &&& final(state).next_message_id == if current is None {
                    (old(state).next_message_id + 1) as u64
                } else {
                    old(state).next_message_id
                }
                &&& match chat_position(data, chat_id) {
                    Some(i) => match current {
                        Some(m) => match message_position_from(data[i].messages, m, false, 0) {
                            Some(j) => chats_data(final(state).chats@) == crate::conversation::with_chat(
                                data,
                                i,
                                data[i].title,
                                data[i].messages.update(
                                    j,
                                    (
                                        data[i].messages[j].0,
                                        data[i].messages[j].1,
                                        data[i].messages[j].2 + delta@,
                                        data[i].messages[j].3,
                                    ),
                                ), now,
                            ),
                            None => final(state).chats == old(state).chats,
                        },
                        None => chats_data(final(state).chats@) == crate::conversation::with_chat(
                            data,
                            i,
                            data[i].title,
                            data[i].messages.push(
                                (old(state).next_message_id, crate::chat::ChatRole::Assistant, delta@, now),
                            ), now,
                        ),
                    },
                    None => final(state).chats == old(state).chats,
                }
                &&& same_settings(*final(state), *old(state))
            }),
    {
        let dv = crate::text::chars_of(delta);
        if dv.len() == 0 {
            return false;
        }
        let mut inflight = match self.inflight.take() {
            Some(i) => i,
            None => {
                return false;
            },
        };
        if inflight.request_id != request_id || inflight.chat_id != chat_id {
            self.inflight = Some(inflight);
            return false;
        }
        self.loading_chat_id = None;
        let applied = state.apply_assistant_delta(chat_id, inflight.assistant_message_id, delta, now);
        inflight.assistant_message_id = applied;
        self.inflight = Some(inflight);
        true
    }

    /// Ends the request in flight when the event belongs to it; returns
    /// whether it did.
    pub fn on_finished(&mut self, request_id: u64, chat_id: u64) -> (r: bool)
        ensures
            r == is_current(*old(self), request_id, chat_id),
            r ==> final(self).inflight is None && final(self).loading_chat_id is None
                && final(self).chat_error == old(self).chat_error
                && final(self).next_request_id == old(self).next_request_id,
            !r ==> *final(self) == *old(self),
    {
        let current = match &self.inflight {
            Some(i) => i.request_id == request_id && i.chat_id == chat_id,
            None => false,
        };
        if current {
            self.inflight = None;
            self.loading_chat_id = None;
        }
        current
    }

    /// Ends the request in flight with `error` when the event belongs to it:
    /// the error is kept for its chat together with the request and the
    /// reply written so far. Returns whether it did.
    pub fn on_failed(&mut self, request_id: u64, chat_id: u64, error: String) -> (r: bool)
        ensures
            r == is_current(*old(self), request_id, chat_id),
            r ==> final(self).inflight is None && final(self).loading_chat_id is None
                && final(self).next_request_id == old(self).next_request_id,
            r ==> (final(self).chat_error matches Some(e) && e.chat_id == chat_id && e.message
                == error && e.request == old(self).inflight->0.request && e.assistant_message_id
                == old(self).inflight->0.assistant_message_id),
            !r ==> *final(self) == *old(self),
    {
        let inflight = match self.inflight.take() {
            Some(i) => i,
            None => {
                return false;
            },
        };
        if inflight.request_id != request_id || inflight.chat_id != chat_id {
            self.inflight = Some(inflight);
            return false;
        }
        self.loading_chat_id = None;
        self.chat_error = Some(
            ChatErrorState {
                chat_id,
                message: error,
                request: inflight.request,
                assistant_message_id: inflight.assistant_message_id,
            },
        );
        true
    }

    /// Drops the shown error when it belongs to chat `chat_id`.
    pub fn clear_chat_error(&mut self, chat_id: u64)
        ensures
            final(self).inflight == old(self).inflight,
            final(self).next_request_id == old(self).next_request_id,
            final(self).loading_chat_id == old(self).loading_chat_id,
            error_chat(*old(self)) == Some(chat_id) ==> final(self).chat_error is None,
            error_chat(*old(self)) != Some(chat_id) ==> final(self).chat_error == old(
                self,
            ).chat_error,
    {
        let matches_chat = match &self.chat_error {
            Some(e) => e.chat_id == chat_id,
            None => false,
        };
        if matches_chat {
            self.chat_error = None;
        }
    }

    /// Stops waiting for the request in flight (the caller aborts its task):
    /// returns its chat, whose error is cleared; `None`, changing nothing,
    /// when nothing is in flight.
    pub fn stop(&mut self) -> (r: Option<u64>)
        ensures
            r == match inflight_ids(*old(self)) {
                Some(ids) => Some(ids.1),
                None => None,
            },
            r is None ==> *final(self) == *old(self),
            (r matches Some(c) ==> final(self).inflight is None && final(self).loading_chat_id is None
                && final(self).next_request_id == old(self).next_request_id && (if error_chat(
                *old(self),
            ) == Some(c) {
                final(self).chat_error is None
            } else {
                final(self).chat_error == old(self).chat_error
            })),
    {
        let chat_id = match &self.inflight {
            Some(i) => i.chat_id,
            None => {
                return None;
            },
        };
        self.inflight = None;
        self.loading_chat_id = None;
        self.clear_chat_error(chat_id);
        Some(chat_id)
    }

    /// Whether the failed request of chat `chat_id` can be sent again:
    /// nothing is in flight and the shown error belongs to that chat.
    pub fn can_retry(&self, chat_id: u64) -> (r: bool)
        ensures
            r == (self.inflight is None && error_chat(*self) == Some(chat_id)),
    {
        if self.inflight.is_some() {
            return false;
        }
        match &self.chat_error {
            Some(e) => e.chat_id == chat_id,
            None => false,
        }
    }

    /// Sends the failed request of chat `chat_id` again, when nothing is in
    /// flight and the shown error belongs to that chat; `None`, changing
    /// nothing, otherwise. Else the request is built anew and sent (see
    /// `send_for_chat`); when it no longer builds, the new error keeps the
    /// reply that the failed request had written.
    pub fn retry(&mut self, state: &AppState, chat_id: u64) -> (r: Option<Option<u64>>)
        requires
            old(self).next_request_id < u64::MAX,
        ensures
            !(old(self).inflight is None && error_chat(*old(self)) == Some(chat_id)) ==> r is None
                && *final(self) == *old(self),
            old(self).inflight is None && error_chat(*old(self)) == Some(chat_id) ==> (r matches Some(
                sent,
            ) && match request_for_chat(*state, chat_id) {
                Ok(_) => sent_for_chat(*old(self), *final(self), *state, chat_id, sent),
                Err(e) => {
                    &&& sent is None
                    &&& final(self).next_request_id == old(self).next_request_id
                    &&& final(self).inflight == old(self).inflight
                    &&& final(self).loading_chat_id == old(self).loading_chat_id
                    &&& (final(self).chat_error matches Some(err) && err.chat_id == chat_id
                        && err.message@ == e && err.request@ == placeholder_request(
                        state.settings.provider.active_provider,
                    ) && err.assistant_message_id == old(self).chat_error->0.assistant_message_id)
                },
            }),
    {
        if !self.can_retry(chat_id) {
            return None;
        }
        let kept = match &self.chat_error {
            Some(e) => e.assistant_message_id,
            None => None,
        };
        let sent = self.send_for_chat(state, chat_id);
        if sent.is_none() {
            match self.chat_error.take() {
                Some(mut e) => {
                    e.assistant_message_id = kept;
                    self.chat_error = Some(e);
                },
                None => {},
            }
        }
        Some(sent)
    }

    /// Builds the request for the chat `chat_id` and, when that succeeds,
    /// starts it (see `start`) and returns its request id; when it fails, the
    /// error is kept for the chat with an empty request and nothing else
    /// changes. This is what sending a prompt, regenerating a reply, saving an
    /// edit or retrying does once nothing is in flight.
    pub fn send_for_chat(&mut self, state: &AppState, chat_id: u64) -> (r: Option<u64>)
        requires
            old(self).next_request_id < u64::MAX,
        ensures
            sent_for_chat(*old(self), *final(self), *state, chat_id, r),
    {
        let built = match crate::conversation::find_chat(&state.chats, chat_id) {
            Some(i) => {
                proof {
                    crate::conversation::lemma_chat_position_from(chats_data(state.chats@), chat_id, 0);
                }
                crate::provider::build_request(
                    &state.settings,
                    Some(state.settings.provider.openrouter_api_key.as_str()),
                    &state.chats[i],
                )
            },
            None => Err("Chat not found.".to_string()),
        };
        match built {
            Ok(request) => Some(self.start(chat_id, request)),
            Err(message) => {
                self.chat_error = Some(
                    ChatErrorState {
                        chat_id,
                        message,
                        request: placeholder(state.settings.provider.active_provider),
                        assistant_message_id: None,
                    },
                );
                None
            },
        }
    }
}

} // verus!
