# Blackbeard

The rules and the network protocol of Blackbeard, a multiplayer naval combat
game, as a library verified with Verus.

- `src/` is the verified library: the byte format of the packets, the
  lock-step protocol (the host's input pool, the client's playback buffer
  and controller, desync detection), the connection registries of host and
  client, the host's session of a match, spawning ships, the escudo economy, damage and
  sinking, purchases and the lobby's rules.
  Every public function states its behaviour in `requires`/`ensures`, and
  the laws that tie functions together are proof functions beside them
  (for instance `packet::lemma_packet_roundtrip`).
- `tests/` runs the library on concrete values, and checks its byte format
  against the `binary-stream` crate.
- `app/` is a headless host: it owns the UDP socket (`laminar`), the clock
  and the log files, and asks the library what to do with every event.
