# cosmic_ai_panel

The core of a small AI assistant panel for the COSMIC desktop, written in
Verus. The functions in `src/` carry contracts that Verus proves, apart from
a few small wrappers around `serde_json`, the clock and building a `String`
from characters, whose contracts are trusted (see `src/json.rs`,
`src/chat.rs` and `src/text.rs`).

* `src/chat.rs`: chats, messages, saved models and the settings types, with
  their normalization.
* `src/settings_state.rs`: the settings form (reading settings into it,
  checking and writing it back), tabs and modals.
* `src/personalization.rs`, `src/runtime/personalization.rs`: personalization
  bundles and the AI migration helpers (request building, fence stripping,
  JSON object extraction, trailing-comma repair).
* `src/runtime/context/builder.rs`: the system prompt assembled from the base
  prompt, the profile and the memory; the prompt preview.
* `src/provider.rs`: chat requests, server-sent event decoding and the
  stream decoder; `src/stream_laws.rs`: decoding does not depend on how the
  stream is cut into chunks.
* `src/conversation.rs`: what the chat actions do to the state (new, rename,
  delete, prompt, edit, regenerate, branch, streamed replies).
* `src/storage.rs`: rebuilding the state from loaded files, migrations of
  older layouts, and which file wins when loading falls back to a backup.
* `src/requests.rs`: the request in flight and which provider events belong
  to it; `src/panel_actions.rs`: sending a prompt, regenerating a reply and
  saving an edit, each followed by the chat's request;
  `src/message_actions.rs`: the buttons under each message.
* `src/keys.rs`, `src/display.rs`, `src/secrets.rs`: editor key handling,
  one-line previews and titles, what is written to the keyring.
* `src/json.rs`, `src/text.rs`: the trusted calls into `serde_json` and the
  character-level text helpers.

`app/` holds what Verus does not see: the JSON forms of the types (serde),
file I/O, the keyring, and the HTTP streaming with `reqwest` and `tokio`.

The panel's COSMIC user interface (the application model, its views, message
dispatch, styles and window handling) is not part of this crate: it is built
on libcosmic, which is not available to this build, and its drawing code
works on floating-point layout values. What that interface decides is in
`src/`: the chat actions (`conversation.rs`, `panel_actions.rs`), the
request in flight (`requests.rs`), the settings form (`settings_state.rs`), the message buttons
(`message_actions.rs`), key handling (`keys.rs`) and the texts it shows
(`display.rs`). Functions that change chats take the current time as an
argument; the interface passes `now_timestamp()`.
