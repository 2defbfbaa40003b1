# Audetic

A voice dictation service for the Linux desktop: a keybinding starts and stops recording, speech is
streamed to a realtime transcription service, and the text goes to the clipboard or into the focused
application. An overlay shows the text as it comes, a tray icon the state of the service.

The decisions of these programs are a library written in Verus; its contracts are proved. The
programs themselves are ordinary Rust around it.

## Layout

- `src/` — the verified library.
  - `audio/` — choosing the microphone, the recorder with its states and samples, the options of a
    job, lowering the volume of other programs, the level while nothing is recorded.
  - `streaming/` — the hub and its events, the lifecycle of a session, bringing samples to the
    rate of the provider, cutting and queueing them, the protocol of the realtime service, what
    becomes of the text.
  - `overlay/` — what the overlay shows, how it is operated, how it reads the event stream, what it
    keeps between runs.
  - `text_io.rs` — the clipboard, typing and pasting with the programs that are installed.
  - `tray.rs`, `service.rs`, `api.rs` — the tray icon, the commands of the service, the answers of
    its HTTP interface.
  - `config.rs` — the settings.
  - `text.rs`, `json.rs`, `web_url.rs`, `stamp.rs` — texts, JSON, web addresses, the time and fresh
    identifiers.
- `tests/` — tests of the library.
- `app/` — the programs: sound, network, processes, files, windows. One executable, which acts as
  `audetic`, `audetic-overlay`, `audetic-tray` or `audetic-launch` by the name it is started under.

## What is trusted

Functions marked `external_body`, and one `assume_specification`, state what functions of
`serde_json`, `reqwest::Url`, `base64`, `chrono`, `uuid` and the standard library do. They are in
`json.rs`, `web_url.rs`, `stamp.rs`, `text.rs` and `streaming/mistral_realtime.rs`; each says in its
comment what it claims.

Floating-point numbers stay outside the library. Where it has to carry one, it carries its bits.
