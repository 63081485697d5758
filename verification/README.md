# privchat_sdk

The client side of a chat service as a verified library. The library decides and computes; the crate
around it (`app/`) talks to the server, the disk and the clock.

## The library (`src/`)

- `json`, `text`, `order`, `clock`, `ids`, `error`, `events`, `client`: values, texts, sorting,
  dates, message ids, errors and events.
- `sdk/config`, `sdk/state`: the configuration, and the life of the SDK from the first attempt to
  connect to its shutdown.
- `sdk/requests`, `sdk/social`, `sdk/reactions`, `sdk/settings`, `sdk/callbacks`: what is asked of the
  server, what its answers mean, and what listeners are told.
- `sdk/incoming`, `sdk/wire`, `sdk/timeline`, `sdk/channel_list`: messages and channels from the
  server, and how they are shown.
- `sdk/outgoing`, `sdk/sending`, `sdk/attachments`, `sdk/file_sending`: the way of messages and files
  out, step by step.
- `storage/sql`, `storage/dao`: the statements on each table, and what rows hold.
- `storage/db_actor`: what the owner of the databases does on each command, how a received message is
  stored, how the channel list is merged, and the key of a database.
- `storage/kv`, `storage/deduplication`, `storage/scripts`, `storage/advanced_features`,
  `storage/advanced_features_integration`, `storage/feature_store`: the key-value store, duplicates,
  migrations, read receipts, revocations and edits, and what these write.

Each function states in its `ensures` what it returns. What relates several functions stands in
public proof functions whose names begin with `law_`.

Where the library calls another crate or an unspecified part of the standard library, the call stands
in a small function marked `external_body`; the comment above it says what is believed of the call.

## The rest

- `tests/` runs the library, its SQL on SQLite and its wrappers on the real crates.
- `app/` holds the thread that owns the databases, the store on disk, the connection to the server and
  the listeners.
