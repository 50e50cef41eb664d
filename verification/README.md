# ch9120

Verified core of a driver for the WCH CH9120 serial-to-Ethernet bridge.

- `src/config.rs`: the configuration (`Ch9120Config`, `Mode`) and `ConfigStoreError`.
- `src/protocol.rs`: command bytes, little-endian encodings and the byte-exact
  frames `0x57 0xAB <command> <payload>`, with the laws that the written bytes
  read back as the configuration.
- `src/session.rs`: the procedure that stores a configuration, as a state
  machine that hands out one action (baud change, pin, delay, frame, wait for
  the acknowledgement) at a time, with laws on the whole run.
- `src/transport.rs`: the bookkeeping of the timed UART reader.
- `app/`: the async driver (`Ch9120Driver`, `TimeoutBuffer`) that performs the
  actions with embassy timers, embedded-hal pins and an embedded-io UART, and the
  configuration builder.
