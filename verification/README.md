# qpager

A small WebSocket messenger server with sign-up and log-in.

- `src/` is the verified library (Verus): protocol types (`protocol`), a
  string-keyed map used for request fields and session tokens (`str_map`),
  lowercase hex encoding with its decoding law (`hex_codec`), the OpenSSL
  primitives behind trusted wrappers (`crypto`), sign-up, password checking
  and session tokens (`db`), and the server's reply decisions (`server`).
- `app/` is the program around it: PostgreSQL access with diesel, the
  WebSocket loop with tungstenite, JSON with serde, logging, and a demo
  client (`client` argument).
- `tests/` runs the library against the real `hex` and `openssl` crates.
