# pixelwalker

A client kit for the PixelWalker game, written in Verus.

- `src/` is the verified library: the client's states and login token, the
  paging of collection queries, the sort and request parameters, the host
  configuration, the packets and their conversions, the resources of the
  handlers, the decisions of the websocket loop, and the rules of the
  `#[handler]` attribute. `src/external.rs` holds the calls into `base64`,
  `serde_json`, `url` and `std::any`, with the contracts that the rest relies
  on.
- `app/` holds the I/O around it: the environment variables, the HTTP
  requests of the API server (through `pocketbase-sdk` and `reqwest`), the
  websocket of the game server (through `tokio-tungstenite`), the JSON forms
  of the records (`serde`), and the token generation of `#[handler]`
  (`syn`, `quote`).
- `tests/` runs the library on concrete values.

The binary encoding of world packets is defined by the protocol's
`world.proto`; `app/` takes it from the user through `PacketCodec`.
