# zju_connect_gui

A desktop companion for the `zju-connect` command-line client: it builds the
client's command line from the user's settings, supervises the client
process, answers its SMS, callback and captcha prompts, serves a small
token-protected web UI on localhost and keeps an icon in the system tray.

The decisions of the application are a library verified with Verus:

- `src/backend/` holds the launch options (normalisation, validation, the
  client's argument list), the settings and pending-connect records, the
  elevated relaunch arguments and their Windows quoting, browser detection and
  the command that opens the EIP page, and `proxy/`: the session state
  machine of the supervisor, log-line parsing, retry back-off, the DNS probe
  packet, the captcha file checks and the ProxyBridge rule plan.
- `src/web/` holds the event stream payloads, the replay buffer for the first
  subscriber, request authorisation and the REST request shapes.
- `src/tray.rs` holds the tray's texts and icon pixel conversion.
- `src/text.rs` holds the string helpers the rest is written with.

Each public function states its result in its `ensures`; the laws that
relate several of them are public proof functions next to them (names
starting with `lemma_`).

`app/` is the program around the library: process spawning, files, the
axum server, the tray and the tokio event loops. It is not verified.
`tests/` runs the library on concrete values.
