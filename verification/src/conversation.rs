//! What the panel's chat actions do to the state: creating, renaming and
//! deleting chats, adding prompts, editing and branching conversations, and
//! folding streamed replies into the chat they belong to.
//!
//! The functions that change a chat take the current time `now` as an
//! argument: a changed chat is stamped with it, and new messages are created
//! at it.

use crate::chat::{
    active_model_name, new_chat_title, ChatMessage, ChatRole, ChatSession, ProviderKind,
};
use crate::display::{chat_title, summarize_title};
use crate::storage::AppState;
use crate::text::{chars_of, push_str, starts_with, string_from_chars, trim, trim_string};
use vstd::prelude::*;

verus! {

/// A message as plain values: id, role, content and creation time.
pub type MessageData = (u64, ChatRole, Seq<char>, u64);

pub open spec fn message_data(m: ChatMessage) -> MessageData {
    (m.id, m.role, m.content@, m.created_at)
}

pub open spec fn messages_data(s: Seq<ChatMessage>) -> Seq<MessageData> {
    s.map_values(|m: ChatMessage| message_data(m))
}

/// A chat as plain values.
#[verifier::ext_equal]
pub struct ChatData {
    pub id: u64,
    pub title: Seq<char>,
    pub provider: ProviderKind,
    pub model: Seq<char>,
    pub updated_at: u64,
    pub messages: Seq<MessageData>,
}

pub open spec fn chat_data(c: ChatSession) -> ChatData {
    ChatData {
        id: c.id,
        title: c.title@,
        provider: c.provider,
        model: c.model@,
        updated_at: c.updated_at,
        messages: messages_data(c.messages@),
    }
}

pub open spec fn chats_data(s: Seq<ChatSession>) -> Seq<ChatData> {
    s.map_values(|c: ChatSession| chat_data(c))
}

/// The position of the first chat at or after `k` whose id is `id`.
pub open spec fn chat_position_from(s: Seq<ChatData>, id: u64, k: int) -> Option<int>
    decreases s.len() - k,
{
    if k < 0 || k >= s.len() {
        None
    } else if s[k].id == id {
        Some(k)
    } else {
        chat_position_from(s, id, k + 1)
    }
}

/// The position of the first chat whose id is `id`.
pub open spec fn chat_position(s: Seq<ChatData>, id: u64) -> Option<int> {
    chat_position_from(s, id, 0)
}

/// What `chat_position_from` finds: a chat with the id and none before it.
pub proof fn lemma_chat_position_from(s: Seq<ChatData>, id: u64, k: int)
    requires
        0 <= k,
    ensures
        match chat_position_from(s, id, k) {
            Some(i) => k <= i < s.len() && s[i].id == id && forall|j: int|
                k <= j < i ==> s[j].id != id,
            None => forall|j: int| k <= j < s.len() ==> s[j].id != id,
        },
    decreases s.len() - k,
{
    if k < s.len() && s[k].id != id {
        lemma_chat_position_from(s, id, k + 1);
    }
}

/// The position of the chat with id `chat_id` among `chats`.
pub fn find_chat(chats: &Vec<ChatSession>, chat_id: u64) -> (r: Option<usize>)
    ensures
        match r {
            Some(i) => chat_position(chats_data(chats@), chat_id) == Some(i as int),
            None => chat_position(chats_data(chats@), chat_id) is None,
        },
{
    let ghost s = chats_data(chats@);
    let mut i: usize = 0;
    while i < chats.len()
        invariant
            i <= chats@.len(),
            s == chats_data(chats@),
            chat_position(s, chat_id) == chat_position_from(s, chat_id, i as int),
        decreases chats@.len() - i,
    {
        assert(s[i as int].id == chats@[i as int].id);
        if chats[i].id == chat_id {
            return Some(i);
        }
        i = i + 1;
    }
    None
}

/// The chat at position `i` of `chats`, with its title and messages replaced
/// and stamped with time `now`.
pub open spec fn with_chat(
    chats: Seq<ChatData>,
    i: int,
    title: Seq<char>,
    messages: Seq<MessageData>,
    now: u64,
) -> Seq<ChatData> {
    chats.update(i, ChatData { title, messages, updated_at: now, ..chats[i] })
}

/// The chats without those whose id is `id`, in order.
pub open spec fn chats_without(s: Seq<ChatData>, id: u64) -> Seq<ChatData>
    decreases s.len(),
{
    if s.len() == 0 {
        Seq::empty()
    } else {
        let r = chats_without(s.drop_last(), id);
        if s.last().id == id {
            r
        } else {
            r.push(s.last())
        }
    }
}

/// A chat whose id is not `id` is kept by `chats_without`.
proof fn lemma_chats_without_keeps(s: Seq<ChatData>, id: u64, k: int)
    requires
        0 <= k < s.len(),
        s[k].id != id,
    ensures
        exists|j: int| 0 <= j < chats_without(s, id).len() && chats_without(s, id)[j] == s[k],
    decreases s.len(),
{
    let r = chats_without(s.drop_last(), id);
    if k == s.len() - 1 {
        assert(chats_without(s, id) == r.push(s.last()));
        assert(chats_without(s, id)[r.len() as int] == s[k]);
    } else {
        assert(s.drop_last()[k] == s[k]);
        lemma_chats_without_keeps(s.drop_last(), id, k);
        let j = choose|j: int| 0 <= j < r.len() && r[j] == s[k];
        if s.last().id != id {
            assert(chats_without(s, id) == r.push(s.last()));
        } else {
            assert(chats_without(s, id) == r);
        }
        assert(chats_without(s, id)[j] == s[k]);
    }
}

/// A chat just created at time `now`: numbered title, no messages, and the
/// provider and model that new requests use.
pub open spec fn fresh_chat(id: u64, provider: ProviderKind, model: Seq<char>, now: u64) -> ChatData {
    ChatData { id, title: new_chat_title(id), provider, model, updated_at: now, messages: Seq::empty() }
}

/// Whether everything but the chats and the counters is unchanged.
pub open spec fn same_settings(a: AppState, b: AppState) -> bool {
    a.settings == b.settings
}

/// The position of the first message at or after `k` whose id is `id`,
/// and, when `user_only`, whose role is `User`.
pub open spec fn message_position_from(s: Seq<MessageData>, id: u64, user_only: bool, k: int) -> Option<
    int,
>
    decreases s.len() - k,
{
    if k < 0 || k >= s.len() {
        None
    } else if s[k].0 == id && (!user_only || s[k].1 == ChatRole::User) {
        Some(k)
    } else {
        message_position_from(s, id, user_only, k + 1)
    }
}

pub proof fn lemma_message_position_from(s: Seq<MessageData>, id: u64, user_only: bool, k: int)
    requires
        0 <= k,
    ensures
        match message_position_from(s, id, user_only, k) {
            Some(j) => k <= j < s.len() && s[j].0 == id && (!user_only || s[j].1
                == ChatRole::User),
            None => true,
        },
    decreases s.len() - k,
{
    if k < s.len() && !(s[k].0 == id && (!user_only || s[k].1 == ChatRole::User)) {
        lemma_message_position_from(s, id, user_only, k + 1);
    }
}

fn find_message(messages: &Vec<ChatMessage>, id: u64, user_only: bool) -> (r: Option<usize>)
    ensures
        match r {
            Some(j) => message_position_from(messages_data(messages@), id, user_only, 0) == Some(
                j as int,
            ),
            None => message_position_from(messages_data(messages@), id, user_only, 0) is None,
        },
{
    let ghost s = messages_data(messages@);
    let mut j: usize = 0;
    while j < messages.len()
        invariant
            j <= messages@.len(),
            s == messages_data(messages@),
            message_position_from(s, id, user_only, 0) == message_position_from(
                s,
                id,
                user_only,
                j as int,
            ),
        decreases messages@.len() - j,
    {
        assert(s[j as int] == message_data(messages@[j as int]));
        let is_user = match messages[j].role {
            ChatRole::User => true,
            _ => false,
        };
        if messages[j].id == id && (!user_only || is_user) {
            return Some(j);
        }
        j = j + 1;
    }
    None
}

/// The id of the last assistant message of `m`.
pub open spec fn last_assistant_id(m: Seq<MessageData>) -> Option<u64>
    decreases m.len(),
{
    if m.len() == 0 {
        None
    } else if m.last().1 == ChatRole::Assistant {
        Some(m.last().0)
    } else {
        last_assistant_id(m.drop_last())
    }
}

/// The ids of the messages, in order.
pub open spec fn message_ids(m: Seq<MessageData>) -> Seq<u64> {
    m.map_values(|d: MessageData| d.0)
}

/// The messages with fresh ids `start`, `start + 1`, ... in order.
pub open spec fn renumbered(m: Seq<MessageData>, start: u64) -> Seq<MessageData> {
    Seq::new(m.len(), |k: int| ((start + k) as u64, m[k].1, m[k].2, m[k].3))
}

/// Where a branch would be cut: the source chat and the position of the
/// first message with id `message_id`, when that message is an assistant reply.
pub open spec fn branch_point(chats: Seq<ChatData>, chat_id: u64, message_id: u64) -> Option<
    (int, int),
> {
    match chat_position(chats, chat_id) {
        Some(i) => match message_position_from(chats[i].messages, message_id, false, 0) {
            Some(j) => if chats[i].messages[j].1 == ChatRole::Assistant {
                Some((i, j))
            } else {
                None
            },
            None => None,
        },
        None => None,
    }
}

/// What saving an edited user message did.
#[derive(Debug)]
pub enum EditOutcome {
    /// The edited text is blank; nothing changed.
    EmptyText,
    /// There is no such chat or no user message with that id; nothing changed.
    NotFound,
    /// The message was replaced and the messages after it removed; their ids.
    Updated(Vec<u64>),
}

fn message_with_content(m: &ChatMessage, content: String) -> (r: ChatMessage)
    ensures
        message_data(r) == (m.id, m.role, content@, m.created_at),
{
    ChatMessage { id: m.id, role: m.role, content, created_at: m.created_at }
}

/// The chats the prompt goes into: the chats as they are when the active chat
/// exists, else with a fresh chat appended (which becomes active).
pub open spec fn prompt_chats(st: AppState, now: u64) -> Seq<ChatData> {
    let data = chats_data(st.chats@);
    if chat_position(data, st.active_chat_id) is Some {
        data
    } else {
        data.push(
            fresh_chat(
                st.next_chat_id,
                st.settings.provider.active_provider,
                active_model_name(st.settings@.provider), now,
            ),
        )
    }
}

/// The chat a prompt goes into.
pub open spec fn prompt_chat_id(st: AppState) -> u64 {
    if chat_position(chats_data(st.chats@), st.active_chat_id) is Some {
        st.active_chat_id
    } else {
        st.next_chat_id
    }
}

/// A chat's title once `prompt` is added: chats still called "New Chat …"
/// are named after the prompt.
pub open spec fn titled_by_prompt(title: Seq<char>, prompt: Seq<char>) -> Seq<char> {
    if starts_with(title, "New Chat"@) {
        chat_title(prompt)
    } else {
        title
    }
}

proof fn lemma_position_of_present(s: Seq<ChatData>, id: u64, j: int)
    requires
        0 <= j < s.len(),
        s[j].id == id,
    ensures
        chat_position(s, id) is Some,
{
    lemma_chat_position_from(s, id, 0);
}

/// The model shown in the chat header: the trimmed model's last path segment
/// (the whole model when that segment is empty), with " (local)" for LM
/// Studio; "No model selected" when there is no model.
pub open spec fn header_model_label(provider: ProviderKind, model: Seq<char>) -> Seq<char> {
    let m = trim(model);
    if m.len() == 0 {
        "No model selected"@
    } else {
        let seg = crate::chat::after_last_slash(m);
        let base = if seg.len() > 0 {
            seg
        } else {
            m
        };
        match provider {
            ProviderKind::LmStudio => base + " (local)"@,
            ProviderKind::OpenRouter => base,
        }
    }
}

/// The position of the first saved model equal to `m`.
pub open spec fn model_position_from(s: Seq<crate::chat::ModelView>, m: crate::chat::ModelView, k: int) -> Option<int>
    decreases s.len() - k,
{
    if k < 0 || k >= s.len() {
        None
    } else if s[k] == m {
        Some(k)
    } else {
        model_position_from(s, m, k + 1)
    }
}

/// The `n`-th saved model (counting from 0) that belongs to provider `p`.
pub open spec fn nth_with_provider(s: Seq<crate::chat::ModelView>, p: ProviderKind, n: nat) -> Option<
    crate::chat::ModelView,
>
    decreases s.len(),
{
    if s.len() == 0 {
        None
    } else if s[0].0 == p {
        if n == 0 {
            Some(s[0])
        } else {
            nth_with_provider(s.drop_first(), p, (n - 1) as nat)
        }
    } else {
        nth_with_provider(s.drop_first(), p, n)
    }
}

impl AppState {
    /// The position of the active chat.
    pub fn active_chat_index(&self) -> (r: Option<usize>)
        ensures
            match r {
                Some(i) => chat_position(chats_data(self.chats@), self.active_chat_id) == Some(
                    i as int,
                ),
                None => chat_position(chats_data(self.chats@), self.active_chat_id) is None,
            },
    {
        find_chat(&self.chats, self.active_chat_id)
    }

    /// Takes the next message id.
    pub fn next_message_id(&mut self) -> (r: u64)
        requires
            old(self).next_message_id < u64::MAX,
        ensures
            r == old(self).next_message_id,
            final(self).next_message_id == old(self).next_message_id + 1,
            final(self).next_chat_id == old(self).next_chat_id,
            final(self).active_chat_id == old(self).active_chat_id,
            final(self).chats == old(self).chats,
            same_settings(*final(self), *old(self)),
    {
        let id = self.next_message_id;
        self.next_message_id = self.next_message_id + 1;
        id
    }

    /// Appends a new empty chat for the active provider and the model that
    /// new requests use, and returns its id (the next chat id).
    pub fn create_chat(&mut self, now: u64) -> (r: u64)
        requires
            old(self).next_chat_id < u64::MAX,
        ensures
            r == old(self).next_chat_id,
            final(self).next_chat_id == old(self).next_chat_id + 1,
            final(self).next_message_id == old(self).next_message_id,
            final(self).active_chat_id == old(self).active_chat_id,
            chats_data(final(self).chats@) == chats_data(old(self).chats@).push(
                fresh_chat(
                    r,
                    old(self).settings.provider.active_provider,
                    active_model_name(old(self).settings@.provider), now,
                ),
            ),
            same_settings(*final(self), *old(self)),
    {
        let chat_id = self.next_chat_id;
        self.next_chat_id = self.next_chat_id + 1;
        let provider = self.settings.provider.active_provider;
        let chat = ChatSession::new_at(chat_id, provider, self.settings.active_model(), now);
        let ghost before = chats_data(self.chats@);
        assert(messages_data(chat.messages@) =~= Seq::<MessageData>::empty());
        assert(chat_data(chat) =~= fresh_chat(
            chat_id,
            provider,
            active_model_name(self.settings@.provider), now,
        ));
        self.chats.push(chat);
        assert(chats_data(self.chats@) =~= before.push(
            fresh_chat(chat_id, provider, active_model_name(self.settings@.provider), now),
        ));
        chat_id
    }

    /// Removes every chat whose id is `chat_id`. When no chat is left a new
    /// one is created and made active; otherwise, when the active chat was
    /// removed, the first remaining chat becomes active.
    pub fn delete_chat(&mut self, chat_id: u64, now: u64)
        requires
            chats_without(chats_data(old(self).chats@), chat_id).len() == 0 ==> old(
                self,
            ).next_chat_id < u64::MAX,
        ensures
            ({
                let kept = chats_without(chats_data(old(self).chats@), chat_id);
                if kept.len() == 0 {
                    &&& chats_data(final(self).chats@) == seq![
                        fresh_chat(
                            old(self).next_chat_id,
                            old(self).settings.provider.active_provider,
                            active_model_name(old(self).settings@.provider), now,
                        ),
                    ]
                    &&& final(self).active_chat_id == old(self).next_chat_id
                    &&& final(self).next_chat_id == old(self).next_chat_id + 1
                } else {
                    &&& chats_data(final(self).chats@) == kept
                    &&& final(self).active_chat_id == if old(self).active_chat_id == chat_id {
                        kept[0].id
                    } else {
                        old(self).active_chat_id
                    }
                    &&& final(self).next_chat_id == old(self).next_chat_id
                }
            }),
            chat_position(chats_data(old(self).chats@), old(self).active_chat_id) is Some
                ==> chat_position(chats_data(final(self).chats@), final(self).active_chat_id) is Some,
            final(self).next_message_id == old(self).next_message_id,
            same_settings(*final(self), *old(self)),
    {
        let ghost all = chats_data(self.chats@);
        let ghost old_active = self.active_chat_id;
        let mut kept: Vec<ChatSession> = Vec::new();
        let mut i: usize = 0;
        while i < self.chats.len()
            invariant
                i <= self.chats@.len(),
                all == chats_data(self.chats@),
                chats_data(kept@) == chats_without(all.take(i as int), chat_id),
            decreases self.chats@.len() - i,
        {
            proof {
                assert(all.take(i + 1).drop_last() =~= all.take(i as int));
                assert(all.take(i + 1).last() == chat_data(self.chats@[i as int]));
            }
            if self.chats[i].id != chat_id {
                let c = self.chats[i].clone();
                let ghost before = chats_data(kept@);
                assert(chat_data(c) =~= chat_data(self.chats@[i as int]));
                kept.push(c);
                assert(chats_data(kept@) =~= before.push(chat_data(c)));
            }
            i = i + 1;
        }
        assert(all.take(self.chats@.len() as int) =~= all);
        self.chats = kept;
        if self.chats.len() == 0 {
            let new_chat_id = self.create_chat(now);
            self.active_chat_id = new_chat_id;
            assert(chats_data(self.chats@) =~= seq![
                fresh_chat(
                    new_chat_id,
                    self.settings.provider.active_provider,
                    active_model_name(self.settings@.provider), now,
                ),
            ]);
            proof {
                lemma_chat_position_from(chats_data(self.chats@), new_chat_id, 0);
            }
        } else if self.active_chat_id == chat_id {
            self.active_chat_id = self.chats[0].id;
            proof {
                lemma_chat_position_from(chats_data(self.chats@), self.active_chat_id, 0);
            }
        } else {
            proof {
                lemma_chat_position_from(all, old_active, 0);
                lemma_chat_position_from(chats_data(self.chats@), old_active, 0);
                if chat_position(all, old_active) is Some {
                    let k = chat_position(all, old_active)->0;
                    lemma_chats_without_keeps(all, chat_id, k);
                }
            }
        }
    }

    /// Gives the chat `chat_id` the trimmed `value` as its title; `false`,
    /// changing nothing, when the value is blank or there is no such chat.
    pub fn rename_chat(&mut self, chat_id: u64, value: &str, now: u64) -> (r: bool)
        ensures
            match chat_position(chats_data(old(self).chats@), chat_id) {
                Some(i) => if crate::text::is_blank(value@) {
                    !r && final(self).chats == old(self).chats
                } else {
                    r && chats_data(final(self).chats@) == with_chat(
                        chats_data(old(self).chats@),
                        i,
                        trim(value@),
                        chats_data(old(self).chats@)[i].messages, now,
                    )
                },
                None => !r && final(self).chats == old(self).chats,
            },
            final(self).active_chat_id == old(self).active_chat_id,
            final(self).next_chat_id == old(self).next_chat_id,
            final(self).next_message_id == old(self).next_message_id,
            same_settings(*final(self), *old(self)),
    {
        let title = trim_string(value);
        let tv = chars_of(title.as_str());
        if tv.len() == 0 {
            return false;
        }
        match find_chat(&self.chats, chat_id) {
            None => false,
            Some(i) => {
                let ghost before = chats_data(self.chats@);
                proof {
                    lemma_chat_position_from(before, chat_id, 0);
                }
                let mut chat = self.chats[i].clone();
                chat.title = title;
                chat.touch_at(now);
                self.chats.set(i, chat);
                assert(chats_data(self.chats@) =~= with_chat(
                    before,
                    i as int,
                    trim(value@),
                    before[i as int].messages, now,
                ));
                true
            },
        }
    }

    /// The id of the last assistant message of the chat `chat_id`.
    pub fn last_assistant_message_id(&self, chat_id: u64) -> (r: Option<u64>)
        ensures
            r == match chat_position(chats_data(self.chats@), chat_id) {
                Some(i) => last_assistant_id(chats_data(self.chats@)[i].messages),
                None => None,
            },
    {
        match find_chat(&self.chats, chat_id) {
            None => None,
            Some(i) => {
                proof {
                    lemma_chat_position_from(chats_data(self.chats@), chat_id, 0);
                }
                let messages = &self.chats[i].messages;
                let ghost m = messages_data(messages@);
                assert(m == chats_data(self.chats@)[i as int].messages);
                let mut j: usize = messages.len();
                assert(m.take(j as int) =~= m);
                while j > 0
                    invariant
                        j <= messages@.len(),
                        m == messages_data(messages@),
                        m == chats_data(self.chats@)[i as int].messages,
                        chat_position(chats_data(self.chats@), chat_id) == Some(i as int),
                        last_assistant_id(m) == last_assistant_id(m.take(j as int)),
                    decreases j,
                {
                    let ghost t = m.take(j as int);
                    assert(t.last() == message_data(messages@[j - 1]));
                    assert(t.drop_last() =~= m.take(j - 1));
                    let is_assistant = match messages[j - 1].role {
                        ChatRole::Assistant => true,
                        _ => false,
                    };
                    if is_assistant {
                        return Some(messages[j - 1].id);
                    }
                    j = j - 1;
                }
                None
            },
        }
    }

    /// Removes the last message of the chat `chat_id` when it is the assistant
    /// reply `message_id` (what regenerating or deleting the last reply starts
    /// with); `false`, changing nothing, otherwise.
    pub fn remove_last_assistant(&mut self, chat_id: u64, message_id: u64, now: u64) -> (r: bool)
        ensures
            ({
                let data = chats_data(old(self).chats@);
                match chat_position(data, chat_id) {
                    Some(i) => {
                        let m = data[i].messages;
                        if m.len() > 0 && m.last().0 == message_id && m.last().1
                            == ChatRole::Assistant {
                            r && chats_data(final(self).chats@) == with_chat(
                                data,
                                i,
                                data[i].title,
                                m.drop_last(), now,
                            )
                        } else {
                            !r && final(self).chats == old(self).chats
                        }
                    },
                    None => !r && final(self).chats == old(self).chats,
                }
            }),
            final(self).active_chat_id == old(self).active_chat_id,
            final(self).next_chat_id == old(self).next_chat_id,
            final(self).next_message_id == old(self).next_message_id,
            same_settings(*final(self), *old(self)),
    {
        let i = match find_chat(&self.chats, chat_id) {
            Some(i) => i,
            None => {
                return false;
            },
        };
        let ghost data = chats_data(self.chats@);
        proof {
            lemma_chat_position_from(data, chat_id, 0);
        }
        let n = self.chats[i].messages.len();
        if n == 0 {
            return false;
        }
        let ghost m = data[i as int].messages;
        assert(m.last() == message_data(self.chats@[i as int].messages@[n - 1]));
        let last_is_reply = match self.chats[i].messages[n - 1].role {
            ChatRole::Assistant => true,
            _ => false,
        };
        if self.chats[i].messages[n - 1].id != message_id || !last_is_reply {
            return false;
        }
        let mut chat = self.chats[i].clone();
        chat.messages.pop();
        chat.touch_at(now);
        assert(messages_data(chat.messages@) =~= m.drop_last());
        self.chats.set(i, chat);
        assert(chats_data(self.chats@) =~= with_chat(data, i as int, data[i as int].title, m.drop_last(), now));
        true
    }

    /// Adds the trimmed `prompt` as a user message to the active chat (a new
    /// chat is created and made active when there is none), naming the chat
    /// after the prompt while it still has its "New Chat …" title. Returns the
    /// new message's id, or `None`, changing nothing, when the prompt is blank.
    pub fn add_user_message(&mut self, prompt: &str, now: u64) -> (r: Option<u64>)
        requires
            old(self).next_message_id < u64::MAX,
            chat_position(chats_data(old(self).chats@), old(self).active_chat_id) is None ==> old(
                self,
            ).next_chat_id < u64::MAX,
        ensures
            trim(prompt@).len() == 0 ==> r is None && final(self).chats == old(self).chats
                && final(self).active_chat_id == old(self).active_chat_id
                && final(self).next_chat_id == old(self).next_chat_id
                && final(self).next_message_id == old(self).next_message_id,
            trim(prompt@).len() > 0 ==> ({
                let base = prompt_chats(*old(self), now);
                let id = prompt_chat_id(*old(self));
                let i = chat_position(base, id)->0;
                let had = chat_position(chats_data(old(self).chats@), old(self).active_chat_id) is Some;
                &&& chat_position(base, id) is Some
                &&& r == Some(old(self).next_message_id)
                &&& final(self).next_message_id == old(self).next_message_id + 1
                &&& final(self).active_chat_id == id
                &&& final(self).next_chat_id == if had {
                    old(self).next_chat_id
                } else {
                    (old(self).next_chat_id + 1) as u64
                }
                &&& chats_data(final(self).chats@) == with_chat(
                    base,
                    i,
                    titled_by_prompt(base[i].title, trim(prompt@)),
                    base[i].messages.push(
                        (old(self).next_message_id, ChatRole::User, trim(prompt@), now),
                    ), now,
                )
            }),
            same_settings(*final(self), *old(self)),
    {
        let text = trim_string(prompt);
        let tv = chars_of(text.as_str());
        if tv.len() == 0 {
            return None;
        }
        proof {
            crate::text::lemma_trim_facts(prompt@);
        }
        let ghost base = prompt_chats(*self, now);
        let ghost id = prompt_chat_id(*self);
        let i = match find_chat(&self.chats, self.active_chat_id) {
            Some(i) => i,
            None => {
                let chat_id = self.create_chat(now);
                self.active_chat_id = chat_id;
                proof {
                    lemma_position_of_present(chats_data(self.chats@), chat_id, self.chats@.len() - 1);
                }
                match find_chat(&self.chats, chat_id) {
                    Some(i) => i,
                    None => {
                        assert(false);
                        return None;
                    },
                }
            },
        };
        assert(chats_data(self.chats@) == base);
        proof {
            lemma_chat_position_from(base, id, 0);
        }
        let message_id = self.next_message_id();
        let message = ChatMessage::new_at(message_id, ChatRole::User, text.as_str(), now);
        let mut chat = self.chats[i].clone();
        let ghost m = base[i as int].messages;
        assert(messages_data(chat.messages@) == m);
        chat.messages.push(message);
        assert(messages_data(chat.messages@) =~= m.push((message_id, ChatRole::User, trim(prompt@), now)));
        let title_chars = chars_of(chat.title.as_str());
        if crate::text::chars_start_with(title_chars.as_slice(), "New Chat") {
            chat.title = summarize_title(text.as_str());
        }
        chat.touch_at(now);
        self.chats.set(i, chat);
        assert(chats_data(self.chats@) =~= with_chat(
            base,
            i as int,
            titled_by_prompt(base[i as int].title, trim(prompt@)),
            m.push((message_id, ChatRole::User, trim(prompt@), now)), now,
        ));
        Some(message_id)
    }

    /// Replaces the user message `message_id` of the chat `chat_id` with the
    /// trimmed `text` and removes every message after it (renaming the chat
    /// after the text when it is the first message), so that the reply can be
    /// asked for again.
    pub fn edit_user_message(&mut self, chat_id: u64, message_id: u64, text: &str, now: u64) -> (r:
        EditOutcome)
        ensures
            ({
                let data = chats_data(old(self).chats@);
                let t = trim(text@);
                if t.len() == 0 {
                    r is EmptyText && final(self).chats == old(self).chats
                } else {
                    match chat_position(data, chat_id) {
                        None => r is NotFound && final(self).chats == old(self).chats,
                        Some(i) => {
                            let m = data[i].messages;
                            match message_position_from(m, message_id, true, 0) {
                                None => r is NotFound && final(self).chats == old(self).chats,
                                Some(j) => {
                                    &&& r matches EditOutcome::Updated(ids) && ids@ == message_ids(
                                        m.skip(j + 1),
                                    )
                                    &&& chats_data(final(self).chats@) == with_chat(
                                        data,
                                        i,
                                        if j == 0 {
                                            chat_title(t)
                                        } else {
                                            data[i].title
                                        },
                                        m.take(j + 1).update(j, (message_id, ChatRole::User, t, m[j].3)), now,
                                    )
                                },
                            }
                        },
                    }
                }
            }),
            final(self).active_chat_id == old(self).active_chat_id,
            final(self).next_chat_id == old(self).next_chat_id,
            final(self).next_message_id == old(self).next_message_id,
            same_settings(*final(self), *old(self)),
    {
        let edited = trim_string(text);
        let ev = chars_of(edited.as_str());
        if ev.len() == 0 {
            return EditOutcome::EmptyText;
        }
        proof {
            crate::text::lemma_trim_facts(text@);
        }
        let i = match find_chat(&self.chats, chat_id) {
            Some(i) => i,
            None => {
                return EditOutcome::NotFound;
            },
        };
        let ghost data = chats_data(self.chats@);
        proof {
            lemma_chat_position_from(data, chat_id, 0);
        }
        let ghost m = data[i as int].messages;
        let j = match find_message(&self.chats[i].messages, message_id, true) {
            Some(j) => j,
            None => {
                return EditOutcome::NotFound;
            },
        };
        proof {
            lemma_message_position_from(m, message_id, true, 0);
        }
        let mut chat = self.chats[i].clone();
        assert(messages_data(chat.messages@) == m);
        let mut removed: Vec<u64> = Vec::new();
        assert(j < chat.messages.len());
        let mut k: usize = j + 1;
        while k < chat.messages.len()
            invariant
                j < k <= chat.messages@.len(),
                m == messages_data(chat.messages@),
                removed@ == message_ids(m.subrange(j + 1, k as int)),
            decreases chat.messages@.len() - k,
        {
            let ghost before = removed@;
            removed.push(chat.messages[k].id);
            assert(m.subrange(j + 1, k + 1) =~= m.subrange(j + 1, k as int).push(m[k as int]));
            assert(removed@ =~= message_ids(m.subrange(j + 1, k + 1)));
            k = k + 1;
        }
        assert(m.subrange(j + 1, m.len() as int) =~= m.skip(j + 1));
        let replaced = message_with_content(&chat.messages[j], edited);
        chat.messages.truncate(j + 1);
        chat.messages.set(j, replaced);
        assert(messages_data(chat.messages@) =~= m.take(j + 1).update(
            j as int,
            (message_id, ChatRole::User, trim(text@), m[j as int].3),
        ));
        if j == 0 {
            chat.title = summarize_title(text);
        }
        chat.touch_at(now);
        self.chats.set(i, chat);
        assert(chats_data(self.chats@) =~= with_chat(
            data,
            i as int,
            if j == 0 {
                chat_title(trim(text@))
            } else {
                data[i as int].title
            },
            m.take(j + 1).update(j as int, (message_id, ChatRole::User, trim(text@), m[j as int].3)), now,
        ));
        EditOutcome::Updated(removed)
    }

    /// Starts a new chat from the chat `chat_id` up to and including its
    /// assistant reply `message_id`: same provider and model, the title with
    /// " (Branch)" appended, the messages copied with fresh ids. The new chat
    /// becomes active and its id is returned; `None`, changing nothing, when
    /// there is no such chat or the message is not an assistant reply.
    pub fn branch_chat(&mut self, chat_id: u64, message_id: u64, now: u64) -> (r: Option<u64>)
        requires
            branch_point(chats_data(old(self).chats@), chat_id, message_id) matches Some(p) ==> old(
                self,
            ).next_chat_id < u64::MAX && old(self).next_message_id + p.1 + 1 <= u64::MAX,
        ensures
            ({
                let data = chats_data(old(self).chats@);
                match branch_point(data, chat_id, message_id) {
                    None => {
                        &&& r is None
                        &&& final(self).chats == old(self).chats
                        &&& final(self).active_chat_id == old(self).active_chat_id
                        &&& final(self).next_chat_id == old(self).next_chat_id
                        &&& final(self).next_message_id == old(self).next_message_id
                    },
                    Some(p) => {
                        let source = data[p.0];
                        &&& r == Some(old(self).next_chat_id)
                        &&& final(self).active_chat_id == old(self).next_chat_id
                        &&& final(self).next_chat_id == old(self).next_chat_id + 1
                        &&& final(self).next_message_id == old(self).next_message_id + p.1 + 1
                        &&& chats_data(final(self).chats@) == data.push(
                            ChatData {
                                id: old(self).next_chat_id,
                                title: source.title + " (Branch)"@,
                                provider: source.provider,
                                model: source.model,
                                updated_at: now,
                                messages: renumbered(
                                    source.messages.take(p.1 + 1),
                                    old(self).next_message_id,
                                ),
                            },
                        )
                    },
                }
            }),
            same_settings(*final(self), *old(self)),
    {
        let i = match find_chat(&self.chats, chat_id) {
            Some(i) => i,
            None => {
                return None;
            },
        };
        let ghost data = chats_data(self.chats@);
        proof {
            lemma_chat_position_from(data, chat_id, 0);
        }
        let ghost m = data[i as int].messages;
        let j = match find_message(&self.chats[i].messages, message_id, false) {
            Some(j) => j,
            None => {
                return None;
            },
        };
        proof {
            lemma_message_position_from(m, message_id, false, 0);
        }
        assert(m[j as int] == message_data(self.chats@[i as int].messages@[j as int]));
        let is_reply = match self.chats[i].messages[j].role {
            ChatRole::Assistant => true,
            _ => false,
        };
        if !is_reply {
            return None;
        }
        let new_chat_id = self.next_chat_id;
        self.next_chat_id = self.next_chat_id + 1;
        let start = self.next_message_id;
        let source = &self.chats[i];
        let mut branched = ChatSession::new_at(new_chat_id, source.provider, source.model.as_str(), now);
        let mut title = chars_of(source.title.as_str());
        push_str(&mut title, " (Branch)");
        branched.title = string_from_chars(title.as_slice());
        let mut messages: Vec<ChatMessage> = Vec::new();
        let mut k: usize = 0;
        let mut next = start;
        let n = source.messages.len();
        while k <= j
            invariant
                j < n,
                n == source.messages@.len(),
                k <= j + 1,
                m == messages_data(source.messages@),
                next == start + k,
                start + j + 1 <= u64::MAX,
                messages_data(messages@) == renumbered(m.take(k as int), start),
            decreases j + 1 - k,
        {
            let copied = &source.messages[k];
            let copy = ChatMessage {
                id: next,
                role: copied.role,
                content: copied.content.clone(),
                created_at: copied.created_at,
            };
            let ghost before = messages_data(messages@);
            messages.push(copy);
            assert(messages_data(messages@) =~= renumbered(m.take(k + 1), start)) by {
                assert(messages_data(messages@) =~= before.push(message_data(copy)));
                assert(m[k as int] == message_data(source.messages@[k as int]));
            }
            next = next + 1;
            k = k + 1;
        }
        branched.messages = messages;
        branched.touch_at(now);
        self.next_message_id = next;
        let ghost new_data = chat_data(branched);
        assert(new_data =~= ChatData {
            id: new_chat_id,
            title: data[i as int].title + " (Branch)"@,
            provider: data[i as int].provider,
            model: data[i as int].model,
            updated_at: now,
            messages: renumbered(m.take(j + 1), start),
        });
        self.chats.push(branched);
        assert(chats_data(self.chats@) =~= data.push(new_data));
        self.active_chat_id = new_chat_id;
        Some(new_chat_id)
    }

    /// Folds a piece of a streamed reply into the chat `chat_id`: appended to
    /// the reply `current` when there is one, otherwise the start of a new
    /// assistant message (which takes the next message id, even when the chat
    /// is gone). Returns the id of the reply, or `None`, changing nothing, for
    /// an empty piece.
    pub fn apply_assistant_delta(&mut self, chat_id: u64, current: Option<u64>, delta: &str, now: u64) -> (r:
        Option<u64>)
        requires
            current is None && delta@.len() > 0 ==> old(self).next_message_id < u64::MAX,
        ensures
            ({
                let data = chats_data(old(self).chats@);
                if delta@.len() == 0 {
                    &&& r is None
                    &&& final(self).chats == old(self).chats
                    &&& final(self).next_message_id == old(self).next_message_id
                } else {
                    match current {
                        Some(mid) => {
                            &&& r == Some(mid)
                            &&& final(self).next_message_id == old(self).next_message_id
                            &&& match chat_position(data, chat_id) {
                                Some(i) => match message_position_from(
                                    data[i].messages,
                                    mid,
                                    false,
                                    0,
                                ) {
                                    Some(j) => chats_data(final(self).chats@) == with_chat(
                                        data,
                                        i,
                                        data[i].title,
                                        data[i].messages.update(
                                            j,
                                            (
                                                data[i].messages[j].0,
                                                data[i].messages[j].1,
                                                data[i].messages[j].2 + delta@,
                                                data[i].messages[j].3,
                                            ),
                                        ), now,
                                    ),
                                    None => final(self).chats == old(self).chats,
                                },
                                None => final(self).chats == old(self).chats,
                            }
                        },
                        None => {
                            &&& r == Some(old(self).next_message_id)
                            &&& final(self).next_message_id == old(self).next_message_id + 1
                            &&& match chat_position(data, chat_id) {
                                Some(i) => chats_data(final(self).chats@) == with_chat(
                                    data,
                                    i,
                                    data[i].title,
                                    data[i].messages.push(
                                        (old(self).next_message_id, ChatRole::Assistant, delta@, now),
                                    ), now,
                                ),
                                None => final(self).chats == old(self).chats,
                            }
                        },
                    }
                }
            }),
            final(self).active_chat_id == old(self).active_chat_id,
            final(self).next_chat_id == old(self).next_chat_id,
            same_settings(*final(self), *old(self)),
    {
        let dv = chars_of(delta);
        if dv.len() == 0 {
            return None;
        }
        let ghost data = chats_data(self.chats@);
        match current {
            Some(mid) => {
                let i = match find_chat(&self.chats, chat_id) {
                    Some(i) => i,
                    None => {
                        return Some(mid);
                    },
                };
                proof {
                    lemma_chat_position_from(data, chat_id, 0);
                }
                let ghost m = data[i as int].messages;
                let j = match find_message(&self.chats[i].messages, mid, false) {
                    Some(j) => j,
                    None => {
                        return Some(mid);
                    },
                };
                proof {
                    lemma_message_position_from(m, mid, false, 0);
                }
                let mut chat = self.chats[i].clone();
                assert(messages_data(chat.messages@) == m);
                let mut content = chars_of(chat.messages[j].content.as_str());
                push_str(&mut content, delta);
                let joined = string_from_chars(content.as_slice());
                let updated = message_with_content(&chat.messages[j], joined);
                chat.messages.set(j, updated);
                assert(messages_data(chat.messages@) =~= m.update(
                    j as int,
                    (m[j as int].0, m[j as int].1, m[j as int].2 + delta@, m[j as int].3),
                ));
                chat.touch_at(now);
                self.chats.set(i, chat);
                assert(chats_data(self.chats@) =~= with_chat(
                    data,
                    i as int,
                    data[i as int].title,
                    m.update(j as int, (m[j as int].0, m[j as int].1, m[j as int].2 + delta@, m[j as int].3)), now,
                ));
                Some(mid)
            },
            None => {
                let message_id = self.next_message_id();
                match find_chat(&self.chats, chat_id) {
                    Some(i) => {
                        proof {
                            lemma_chat_position_from(data, chat_id, 0);
                        }
                        let ghost m = data[i as int].messages;
                        let mut chat = self.chats[i].clone();
                        assert(messages_data(chat.messages@) == m);
                        chat.messages.push(ChatMessage::new_at(message_id, ChatRole::Assistant, delta, now));
                        assert(messages_data(chat.messages@) =~= m.push(
                            (message_id, ChatRole::Assistant, delta@, now),
                        ));
                        chat.touch_at(now);
                        self.chats.set(i, chat);
                        assert(chats_data(self.chats@) =~= with_chat(
                            data,
                            i as int,
                            data[i as int].title,
                            m.push((message_id, ChatRole::Assistant, delta@, now)), now,
                        ));
                    },
                    None => {},
                }
                Some(message_id)
            },
        }
    }

    /// Whether the active chat has a model to send requests to.
    pub fn has_selected_model(&self) -> (r: bool)
        ensures
            r == match chat_position(chats_data(self.chats@), self.active_chat_id) {
                Some(i) => !crate::text::is_blank(chats_data(self.chats@)[i].model),
                None => false,
            },
    {
        match find_chat(&self.chats, self.active_chat_id) {
            Some(i) => {
                proof {
                    lemma_chat_position_from(chats_data(self.chats@), self.active_chat_id, 0);
                }
                !crate::text::str_blank(self.chats[i].model.as_str())
            },
            None => false,
        }
    }

    /// The label of the active chat's model (see `header_model_label`).
    pub fn active_model_label(&self) -> (r: String)
        ensures
            r@ == match chat_position(chats_data(self.chats@), self.active_chat_id) {
                Some(i) => header_model_label(
                    chats_data(self.chats@)[i].provider,
                    chats_data(self.chats@)[i].model,
                ),
                None => "No model selected"@,
            },
    {
        let i = match find_chat(&self.chats, self.active_chat_id) {
            Some(i) => i,
            None => {
                return "No model selected".to_string();
            },
        };
        proof {
            lemma_chat_position_from(chats_data(self.chats@), self.active_chat_id, 0);
        }
        let chat = &self.chats[i];
        let model = crate::text::trim_chars(chars_of(chat.model.as_str()).as_slice());
        if model.len() == 0 {
            return "No model selected".to_string();
        }
        let seg = crate::chat::after_last_slash_chars(model.as_slice());
        let mut label = if seg.len() > 0 {
            seg
        } else {
            model
        };
        match chat.provider {
            ProviderKind::LmStudio => push_str(&mut label, " (local)"),
            ProviderKind::OpenRouter => {},
        }
        string_from_chars(label.as_slice())
    }

    /// The position, among the saved models, of the active chat's model
    /// (normalized); `None` when there is no active chat, its model is blank,
    /// or it is not saved.
    pub fn active_model_index(&self) -> (r: Option<usize>)
        ensures
            r == match chat_position(chats_data(self.chats@), self.active_chat_id) {
                Some(i) => match crate::chat::norm_model(
                    chats_data(self.chats@)[i].provider,
                    chats_data(self.chats@)[i].model,
                ) {
                    Some(m) => match model_position_from(self.settings@.provider.saved_models, m, 0) {
                        Some(k) => Some(k as usize),
                        None => None,
                    },
                    None => None,
                },
                None => None,
            },
    {
        let i = match find_chat(&self.chats, self.active_chat_id) {
            Some(i) => i,
            None => {
                return None;
            },
        };
        proof {
            lemma_chat_position_from(chats_data(self.chats@), self.active_chat_id, 0);
        }
        let selected = match crate::chat::SavedModel::normalized(
            self.chats[i].provider,
            self.chats[i].model.as_str(),
        ) {
            Some(m) => m,
            None => {
                return None;
            },
        };
        let saved = &self.settings.provider.saved_models;
        let ghost s = crate::chat::models_view(saved@);
        let mut k: usize = 0;
        while k < saved.len()
            invariant
                k <= saved@.len(),
                s == crate::chat::models_view(saved@),
                s == self.settings@.provider.saved_models,
                chat_position(chats_data(self.chats@), self.active_chat_id) == Some(i as int),
                crate::chat::norm_model(
                    chats_data(self.chats@)[i as int].provider,
                    chats_data(self.chats@)[i as int].model,
                ) == Some(selected@),
                model_position_from(s, selected@, 0) == model_position_from(s, selected@, k as int),
            decreases saved@.len() - k,
        {
            assert(s[k as int] == saved@[k as int]@);
            if saved[k].provider == selected.provider && saved[k].name == selected.name {
                return Some(k);
            }
            k = k + 1;
        }
        None
    }

    /// Switches the active chat to the `index`-th saved model of the chat's
    /// provider; `false`, changing nothing, when there is no active chat or no
    /// such model.
    pub fn select_active_model(&mut self, index: usize, now: u64) -> (r: bool)
        ensures
            ({
                let data = chats_data(old(self).chats@);
                match chat_position(data, old(self).active_chat_id) {
                    Some(i) => match nth_with_provider(
                        old(self).settings@.provider.saved_models,
                        data[i].provider,
                        index as nat,
                    ) {
                        Some(m) => r && chats_data(final(self).chats@) == data.update(
                            i,
                            ChatData { provider: m.0, model: m.1, updated_at: now, ..data[i] },
                        ),
                        None => !r && final(self).chats == old(self).chats,
                    },
                    None => !r && final(self).chats == old(self).chats,
                }
            }),
            final(self).active_chat_id == old(self).active_chat_id,
            final(self).next_chat_id == old(self).next_chat_id,
            final(self).next_message_id == old(self).next_message_id,
            same_settings(*final(self), *old(self)),
    {
        let i = match find_chat(&self.chats, self.active_chat_id) {
            Some(i) => i,
            None => {
                return false;
            },
        };
        let ghost data = chats_data(self.chats@);
        proof {
            lemma_chat_position_from(data, self.active_chat_id, 0);
        }
        let provider = self.chats[i].provider;
        let saved = &self.settings.provider.saved_models;
        let ghost s = crate::chat::models_view(saved@);
        let mut k: usize = 0;
        let mut remaining = index;
        assert(s.skip(0) =~= s);
        let mut found: Option<usize> = None;
        while k < saved.len()
            invariant_except_break
                k <= saved@.len(),
                s == crate::chat::models_view(saved@),
                found is None,
                nth_with_provider(s, provider, index as nat) == nth_with_provider(
                    s.skip(k as int),
                    provider,
                    remaining as nat,
                ),
            ensures
                s == crate::chat::models_view(saved@),
                match found {
                    Some(j) => j < saved@.len() && nth_with_provider(s, provider, index as nat)
                        == Some(s[j as int]),
                    None => nth_with_provider(s, provider, index as nat) is None,
                },
            decreases saved@.len() - k,
        {
            let ghost rest = s.skip(k as int);
            assert(rest[0] == saved@[k as int]@);
            assert(rest.drop_first() =~= s.skip(k + 1));
            if saved[k].provider == provider {
                if remaining == 0 {
                    found = Some(k);
                    break;
                }
                remaining = remaining - 1;
            }
            k = k + 1;
        }
        let j = match found {
            Some(j) => j,
            None => {
                return false;
            },
        };
        let model = saved[j].clone();
        let mut chat = self.chats[i].clone();
        chat.provider = model.provider;
        chat.model = model.name;
        chat.touch_at(now);
        self.chats.set(i, chat);
        assert(chats_data(self.chats@) =~= data.update(
            i as int,
            ChatData { provider: s[j as int].0, model: s[j as int].1, updated_at: now, ..data[i as int] },
        ));
        true
    }
}

} // verus!
