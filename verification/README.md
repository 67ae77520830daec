# Key Tunnel

A keyboard bridge from a Windows machine to a Linux desktop over one SSH
session. The Windows client captures physical keys with a low-level hook and
suppresses them while remote mode is on; the Linux receiver injects the
validated events through a private `ydotoold` socket.

## Layout

- `src/` — the library, verified with Verus:
  - `protocol.rs`: the 36-byte frame (big-endian header, FNV-1a checksum),
    its encoding, decoding and validation, with the round-trip and
    corruption-detection proofs.
  - `mapping.rs`: Set-1 scan codes to Linux key codes, proved one-to-one.
  - `hotkey.rs`, `text.rs`: hotkey text such as `Ctrl+Alt+Pause`.
  - `receiver.rs`, `pressed.rs`: what the receiver does with each frame, its
    event-rate limit, the held-key set, and the `struct input_event` bytes.
  - `ui.rs`, `link.rs`, `status.rs`, `config.rs`, `args.rs`: the client's
    keyboard hook, mode switching, session frames, status, configuration and
    command lines of all programs.
- `app/` — the programs (receiver, probe, client, status tool): I/O,
  processes, threads, Win32 and serde. One executable serves all four by the
  name it is started under; the receiver is built only for Linux and the
  client runs only on Windows.
- `tests/` — tests of the library.
