# Breezer (verified core)

Breezer is a lightweight, native Deezer client. This crate holds its logic as
a Verus-verified library; `app/` is the thin command-line program around it.

## Layout

- `src/player/queue.rs` — the playback queue: navigation, clamping, shuffle
  picks and repeat modes.
- `src/player/decrypt.rs` — stream decryption: the Blowfish-CBC stripe scheme
  (every third 2048-byte chunk) with its key derivation, and the
  AES-128-CBC `md5_origin` scheme.
- `src/i18n.rs` — English/French translations with fallbacks and `{arg}`
  substitution.
- `src/config.rs` — dock-layout profiles (drag & drop, queue toggle), theme
  selection, palette tokens, user colour overrides and `#rrggbb` parsing.
- `src/services.rs` — the services loop's decisions: settings, theme
  overrides, layout and player-mode commands, login and search outcomes,
  and the streaming steps (device check, download, decryption, playback).
- `src/api.rs` — Deezer models, session state, and the ARL login decisions
  from the gateway's reply.
- `src/updater.rs` — whether a GitHub release is newer than the running
  version.
- `src/media.rs` — `m:ss` labels, JPEG covers to RGBA, the placeholder cover.
- `src/cli.rs` — command-line options.
- `src/plugin_api.rs`, `src/plugins.rs` — the plugin interface, registry and
  built-in system plugin.
- `src/text.rs` — string helpers (equality, trimming, replacement).

The outside crates (`md-5`, `blowfish`, `cbc`, `aes`, `serde_json`,
`jpeg-decoder`, `semver`) are called from the library through small trusted
functions whose contracts name what they compute; network, files and audio
output (`reqwest`, `tokio`, `dirs`, `rodio`) are in `app/`.

In `app/`, `shell.rs` performs the effects that `breezer::services` decides
(saving files, plugin hooks, gateway logins, stream download and playback)
and feeds the outcomes back. The program has no window: `run_gui` runs only
the start-up steps, and the command handlers of `shell.rs` (play, next,
previous, toggle, search) have no command source to call them.
