# auxscreen-host

The Linux host of AuxScreen streams a virtual monitor (or a test pattern) to
one Android tablet over WebRTC, with WebSocket signaling on the local network.

- `src/` is the verified library: the command-line rules (port ranges, sizes,
  LAN-only addresses), the signaling messages, the session rules (one client at
  a time, token check, rate limit on invalid tokens, heartbeat, what each
  socket event asks for), the portal response checks, the doctor's list of
  blocking problems and the GStreamer pipeline descriptions. Verus proves the
  contract of every function there except the few marked
  `#[verifier::external_body]`, which call `String::push` and the `rand`
  crate; their contracts are trusted, and their doc comments say what they
  claim.
- `app/` is the program around it: argument parsing with clap, JSON with
  serde, the axum WebSocket server, the ScreenCast portal through ashpd, D-Bus
  through zbus and the GStreamer pipelines.
- `tests/` runs the library on concrete values.
