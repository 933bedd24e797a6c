# clipsynk

Clipboard synchronisation between devices on a local network, as a Verus
library with its program around it.

- `src/` is the verified library: frames and handshakes, the length-prefixed
  wire framing and its reader state machine, discovery decisions, the table of
  connected peers, and the rule that decides which clipboard changes are sent
  and which received frames are applied.
- `app/` is the program: sockets, tasks, JSON encoding, and the platform
  clipboards, driving the library.
- `tests/` runs the library on concrete values.
