# mezeporta

The verified core of the Mezeporta launcher for Monster Hunter Frontier
servers. The functions under `src/` are verified by Verus; the few calls
into outside crates (`encoding_rs`, `sha2`, `base64`, `reqwest::Url`,
`configparser`) and into std where Verus has no specification sit behind
small trusted wrappers whose contracts say what the library relies on.

Layout:

- `src/` — the library.
  - sign-in: `crypto` (the sign server's stream cipher), `packet` (framing),
    `cursor` (reading replies), `sign` (the DSGN request and its reply),
    `server` (API replies, patch server addresses and manifests).
  - servers and session: `endpoint`, `session`, `user`, `entries`, `migrate`
    (stored configuration), `server_info`.
  - launching: `cli` (command line), `launch` and `mhf` (client
    configuration and launch plan), `global_data` (the shared block the
    client reads), `friends` and `inject` (friend list layouts), `version`,
    `detect`.
  - launcher state: `launcher`, `prefs`, `settings` (including the game's ini
    text, read and written with `configparser`), `window`, `altclient`,
    `savedata`, `wine`.
  - game files: `patcher`, `manifest`.
  - `text` — the string and number routines the rest is built on.
- `tests/` — tests run against the compiled library.
- `app/` — the command-line program around the library: arguments, network
  and file input/output, and the serde forms of the library's types.
