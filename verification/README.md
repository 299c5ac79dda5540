# Socials

A unified messaging inbox: conversations and messages from several platforms
(Telegram through a bot or a user account, WhatsApp through a local sidecar)
kept in one local SQLite store and served over an HTTP API.

## Layout

- `src/` — the library, verified with Verus:
  - `entities` — users, accounts, contacts, identities, conversations,
    messages and attachments;
  - `clock`, `ids`, `text` — times, UUIDs and decimal text, with their
    mathematical meaning;
  - `codec`, `rows` — how entities are written to and read from the database
    (a row written for an entity reads back as that entity);
  - `events` — events, envelopes and the registry of subscribers;
  - `connectors` — connector capabilities and the Telegram connector's mapping
    of received messages;
  - `telegram_bot` — the Bot API data, chat titles and the polling offset;
  - `telegram_user` — the user client's sign-in states and session update state;
  - `api` — the replies of the HTTP API and the demo data.
- `app/` — the server: SQLite repositories, the asynchronous event bus, the
  core service, the axum router and the network clients.
- `tests/` — tests of the library.
