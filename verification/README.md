# kild_ui

The logic of the KILD dashboard as a verified library: key bindings and
terminal input encoding, project list handling, navigation and dialog
routing, terminal tabs, pane layout, dashboard grouping and alerts, file
watcher event filtering, terminal cell layout and colors, URL detection,
teammate tracking, and the daemon client's requests and reply handling.
Every function in `src/` carries a contract. Those that call std or an
outside crate (path handling, hashing, base64, linkify, regex and a few
string helpers) do so through small wrappers marked
`#[verifier::external_body]`, whose contracts Verus believes as written;
everything else is proved by Verus against its contract. The laws the
library keeps (such as "clearing an error undoes setting it" or "cycling
forward then back returns to the same tab") are public proof functions.

Layout:

- `src/` — the library, one module per concern (`lib.rs` lists them).
- `tests/` — tests on concrete values.
- `app/` — the program around the library: reading and writing the
  project list, the daemon socket (smol), file watchers (notify), the
  alacritty terminal grid, and opening URLs.
