# hackernews_tim

The verified core of a Hacker News terminal client, written in Verus.

- `src/fake.rs` — an in-memory fake of the HN API for tests, with its
  abstract model and laws (calls are logged in order, queued pages come
  back first-in first-out, stubs read back what was stored).
- `src/auth.rs` — credential storage: parsing the backend name, reading
  auth files, the annotated TOML written back, keyring write plans,
  migration between backends, and the upgrade of old files; with
  round-trip laws over an abstract keyring.
- `src/config.rs` — paging limits, commands and built-in defaults.
- `src/nav.rs` — the text of the navigation strip, title bars, user badge
  and numbered-link shortcuts.
- `src/screen.rs`, `src/harness.rs` — snapshot text of a rendered frame and
  the bounded event loop used by the puppet test harness.
- `src/toml_doc.rs`, `src/pattern.rs` — the trusted interfaces to
  `toml_edit` and `regex`.

`app/` holds what runs around the library: file and keyring I/O, the
global configuration, cursive views and the puppet harness.
