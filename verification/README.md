# Sync Clip

Cross-device clipboard sync: Devices in a Sync Group exchange Clips through an
encrypted relay, so a copy on one Device can be pasted on another.

The library (`src/`) is verified with Verus:

- `cbor`, `envelope`, `crypto`, `encoding`: the Clip's canonical CBOR
  plaintext, its XChaCha20-Poly1305 envelope under keys derived from the Link
  Key, and the base64/base32/hex text forms.
- `device`: one Device's sync rules — Armed/Paused, echo suppression,
  last-write-wins, what a publish sends and what a delivered envelope applies.
- `relay`, `relay_server`: the relay's latest-only per-channel buffer with a
  TTL, and how publish and subscribe requests are answered.
- `lifetime`, `ffi`: Shell Lifetime rules and the Shell-facing facade.
- `shell`: the Windows Shell core — stores, echo guard, clipboard change
  tracking, and the controller coupling the clipboard with a Session.

`app/` holds the I/O around it: the relay's WebSocket server, the Device
runtime and blocking Session, file-backed stores, the system clipboard and the
tray. `tests/` runs the library on concrete scenarios.
