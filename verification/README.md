# massa

The decision logic of a Massa node, written in Verus and verified.

- `src/` is the verified library: the bootstrap server's admission rules
  (`bootstrap_server`), the course of a bootstrap session (`bootstrap_session`),
  the streaming of state parts (`bootstrap_stream`), the node worker
  (`node_worker`), the denunciation factory's caches (`denunciation_factory`),
  speculative processed denunciations (`processed_denunciations`), the peer
  database and tester handshake (`peer_handler`), the wallet's key store
  (`wallet`), its text rendering (`wallet_text`) and the smaller event loops
  (`event_loops`). `int_key_map` holds std hash maps and sets over keys with
  an exact integer code (slots, endorsement keys, denunciation indices, IP
  addresses); `vec_map` holds the one table keyed by 256-bit peer ids.
- `app/` drives the library: channels, threads, timers, sockets and files.
- `tests/` runs the library on concrete values.
