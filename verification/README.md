# pf_webos

The menu and the session logic of a game-streaming client for TVs, written in Verus: each
function's behaviour is stated in its contract and proved.

- `src/app/` is the menu: a state (`App`, viewed as `AppView`), handlers for the remote, the
  pointer and for what comes in from hosts, and the decisions which tiles to rasterize
  (`prepare_tiles`) and where to draw them (`draw_list`). Handlers do no work of their own: they
  leave `Command`s in `App::outbox`, and what came of them is handed to the `drain_*` and
  `finish_*` functions.
- `src/backend/` knows the two protocols. `backend/gamestream/` holds requests, identities,
  the connection as a state machine, and the translation of input.
- `src/art/` caches and decodes covers; `src/compositor.rs` keeps track of textures.
- `src/discovery.rs`, `src/library.rs`, `src/store.rs`, `src/errors.rs`, `src/logger.rs`,
  `src/luna.rs`, `src/audio.rs`, `src/probe.rs` and `src/spinner.rs` are the rules of what their
  names say.
- `src/text.rs`, `src/seqs.rs`, `src/bytes.rs`, `src/pixels.rs` and `src/geometry.rs` are shared.

What holds of the library as a whole is stated in the public proof functions whose names start
with `law_`.

`app/` is ordinary Rust around it: sockets, files, threads, SDL, TLS, and the two command-line
probes. Time is always an argument, in milliseconds, so that nothing in `src/` reads a clock.

What is believed rather than proved stands in `src/text.rs` (std's `String::push`,
`str::to_lowercase` and `Debug` for `str`), in `src/backend/gamestream/identity.rs`
(`pem::parse`), in `src/library.rs` (reading a certificate and a key with `rustls`), in
`src/spinner.rs` (decoding a GIF with `image`) and in `src/art/decode.rs` (decoding, cutting and
scaling with `image`, and `tiny_skia`'s check of a pixmap's size).
