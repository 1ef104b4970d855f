# ossuary

Wire-level pieces of the Ossuary encrypted-channel protocol, verified with Verus.

- `src/packet.rs`: packet types and their codes, the fixed-size packet headers
  and their byte encodings (fields in order, each in the byte order of the
  machine that runs the code), and reading structures from packet data.
- `src/nonce.rs`: nonces as big-endian counters; the one-step increment and the
  laws over runs of increments.
- `src/keys.rs`: Ed25519 host-key generation.
- `src/connection.rs`: the state of one side of a connection and its initial value.
- `src/error.rs`: the library's errors.
