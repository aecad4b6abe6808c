# beebotos_agents

The messaging, collaboration and channel logic of BeeBotOS agents, written
in Verus: every function under `src/` carries a contract that Verus proves.

## Layout

- `src/` — the verified library.
  - `content`, `channel/*` — platform content types (DingTalk, Discord,
    Signal, Telegram, Twitter/X, WeChat, WhatsApp, Teams, Matrix,
    BlueBubbles), their content-type names, text extraction, builders,
    request URLs and the decisions of the channel lifecycles (Signal CLI
    daemon, reconnects, health).
  - `templates` — `{{variable}}` templates with per-platform variants.
  - `collaboration/*` — round-table councils, votes, conflicts, debates,
    hubs and workflows.
  - `a2a/*` — agent-to-agent capabilities, deals, negotiations, tasks and
    retry policy.
  - `did` — `did:` identifiers, documents and the resolver cache.
  - `thread`, `events`, `router`, `voice`, `webhook`, and the chat
    sessions of `channel::session_manager`.
  - `strmap`, `idmap`, `text`, `numtext` — insertion-ordered maps with
    unique keys and the text and number routines the rest is built on.
  - `clock` and a few small wrappers — the calls into `uuid`, `chrono`,
    `regex` and `urlencoding`, each with the contract it is trusted for.
- `app/` — what stays outside the proofs: JSON (serde copies of the
  library's types with conversions both ways), HTTP, child processes,
  async shared state, environment variables, and the floating-point
  scoring of votes and offers.
- `tests/` — the library's tests, run against the compiled crate.
