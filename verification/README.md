# dotfiles

The logic of a Wayland desktop setup, written in Verus and proved against its
contracts: the status bars (Wayland bar and i3bar/dwl status line), their
blocks (clock, brightness, power sources, network, media), the dwl tag bar,
the application launcher, the clipboard seat, the D-Bus match-rule registry,
the ListenBrainz scrobbler's pure parts, the polkit helper protocol, the
greeter's power commands and the session supervisors' decisions.

## Layout

- `src/` — the verified library (crate `dotfiles`). Each module holds its
  types, the spec functions its contracts are written in, and its laws as
  public proof functions.
  - `strings`, `push_str` — string helpers and the NUL-terminated buffer.
  - `filters` — match rules and their callbacks, keyed by token.
  - `upower`, `battery`, `time`, `connman`, `playback` — the bar's blocks.
  - `statusline` — the one-line status bar: state, signal handling, text.
  - `bar` — the Wayland bar's status area: item order, hover ids, highlight.
  - `tags`, `dwl`, `desktop`, `settings` — tag bar, compositor key commands,
    launcher, and the bar's settings.
  - `clipboard`, `polkit`, `listenbrainz`, `power`, `supervisor` — the other
    tools' decision logic.
- `tests/` — tests run against the compiled library.
- `app/` — the programs around the library (`cat_sock`, `isdirempty`, the
  i3bar status line, a polkit agent) and the floating-point helpers.

Verify with `verus` on `src/lib.rs`; the outside crates called from `src/`
(memchr, rand, regex, url, pct-str) sit behind small trusted wrappers whose
contracts are documented next to them.
