# flutter_realtime_player

The core of a realtime video player for Flutter, verified with Verus.

- `src/` is the verified library: the session table and its keep-alive
  rules, frame double buffers and pixel-row packing, the HLS timeline used
  for seeking, dimension sanitising, SDP normalisation and RTP caps
  extraction, URL construction for the relay and WebSocket endpoints, and
  the decision functions of every streaming loop (FFmpeg decoding,
  WebSocket-controlled RTP, TRTP, playbin, texture output).
- `app/` is the platform glue that runs those loops: sockets, HTTP,
  WebSockets, GStreamer and FFmpeg pipelines, textures and logging. It
  hands the library plain values and acts on the decisions it returns.
- `tests/` runs the library on concrete inputs.

Calls into outside crates that the library makes (`url`, `sdp`, and
`str::to_uppercase`) go through small trusted wrappers whose contracts are
stated next to them in `src/engine/urls.rs` and
`src/engine/input/wsc_rtp.rs`.
