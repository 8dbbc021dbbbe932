# Bounty Bot

A chat bot for running paid bounties in a community: members submit bounties
from a template, managers approve, reject, complete, assign and edit them,
hunters take approved bounties, and stakeholders pledge amounts.

The decisions and texts of the bot are a library verified with Verus; the
process around it (chat client, database, timers) is ordinary Rust.

## Layout

- `src/` — the verified library.
  - `text.rs` — character-level text operations (trimming, splitting, decimal
    numbers) with exact specifications.
  - `permissions.rs` — the bot's permission flags, grants per community and the
    permission commands' decisions.
  - `bounty_id.rs` — public bounty ids (sqids encoding) and reading them back.
  - `bounty.rs` — bounty states, content fields and stored rows.
  - `submission.rs` — the submission template, reading a submission message and
    checking it.
  - `timestamp.rs` — chat timestamp markup.
  - `render.rs` — the message that shows a bounty.
  - `lifecycle.rs` — state changes, assignment and their replies.
  - `commands.rs` — the command table, routing and finding commands in messages.
  - `arguments.rs` — reading command arguments.
  - `guild.rs` — community settings and the configuration command.
  - `laws.rs` — properties that relate several operations.
- `tests/` — tests of the library on concrete values.
- `app/` — the bot process: event handling, database access, chat replies.
