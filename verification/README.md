# yumush

A small chat service: users, communities and messages, a server that keeps them in
SurrealDB and serves clients over QUIC, and a client with a window.

The library (`src/`) holds the logic, verified with Verus:

- `validate`, `request`, `response`, `user`, `community`, `message`, `event`, `error`:
  the shared message types, the rules names and bodies obey, and the texts of errors.
- `utils`, `text`: the configuration format (`[header]`, then `key = value` lines).
- `network`: read limits and the frame of a pushed message.
- `order`: the order in which member lists are sent.
- `server`: records and their keys (ULIDs drawn with the `ulid` crate), the configuration,
  and `server::request::Handling`, a state machine that answers each request by naming
  one database step at a time.
- `client`: the configuration, how an answer is read, the login kept across reconnects,
  and the state the window shows.

`app/` is the program around it: `yumush server` runs the server (SurrealDB, QUIC with
quinn, the wire encoding with bitcode); `yumush` runs the client (the window uses gpui).
Both read `configs/server_config.toml` or `configs/client_config.toml`.
