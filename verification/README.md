# syncnote

SyncNote is a notes app: personal Markdown notes (with math), shared pages
that several accounts edit live over a WebSocket, file attachments, share
links and an admin area.

This crate is its core, written in Verus and proved: the rules and decisions
of the app, its text processing and its sync protocol, each with a contract.

- `src/` — the verified library.
  - `sync` — live sync of shared pages: versioned writes, stale writes
    refused, the editor's handling of echoes; with its laws.
  - `markdown` — Markdown rendering (pulldown-cmark) and its post-processing:
    attachment links, inline and block math outside code. Raw HTML of the
    source is shown as text, and `tag_safety` proves that post-processing
    opens no `<script` or `<iframe` tag.
  - `auth`, `password`, `admin`, `pages`, `files`, `notes`, `passkeys` — who
    may do what, sign-in and sign-up decisions, share links and invites.
  - `ceremonies` — passkey registration and sign-in with webauthn-rs.
  - `roles`, `models` — the data the app passes around.
  - `emails`, `export` — the mails the app sends and the printable document
    of a note.
  - `ui`, `autosave` — what the pages compute: search, titles, statistics,
    snippets, the debounce of the editors' writes.
  - `text`, `numbers`, `tokens` — strings, decimal numbers, random tokens.
  - `db`, `mailer` — migration names, the first admin, the SMTP settings and
    the messages sent.
- `tests/` — tests of the library on concrete values.
- `app/` — the server around it: configuration, database, sessions, the HTTP
  and WebSocket endpoints, mail delivery (axum, sqlx, tower-sessions, lettre).
