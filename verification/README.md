# http3_rs (verified core)

The configuration side of an HTTP/3 client, verified with Verus.

- `src/frame.rs`: setting identifiers, GREASE identifiers, and the entries of
  a SETTINGS frame (at most `SETTINGS_LEN`, no identifier twice).
- `src/config.rs`: `Settings` and `Config`, the SETTINGS frame a
  configuration announces (default order or an explicit order, GREASE last),
  and the settings a received frame announces, with the laws that tie them.
- `src/client.rs`: the client `Builder`.
- `src/qpack.rs`: QPACK errors and the decisions of the shared QPACK decoder
  (lock retries, section acknowledgments, stream cancellation).
- `src/datagram.rs`: datagram errors and their mapping.
- `app/lib.rs`: quinn datagram handlers, the lock-holding QPACK decoder and
  the `Display` form of QPACK errors, all driven by the library.
