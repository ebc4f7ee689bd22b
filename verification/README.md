# rustgram-ws

WebSocket upgrades and messages for HTTP services, on top of `hyper` and `tungstenite`.

- `src/` is the verified library. `ws::upgrade` decides on a request for an upgrade by its
  headers, `ws::accept` computes the answer to the key of the client, `ws::message` and
  `ws::wire` convert messages, `ws::stream` decides what a receiver gets to see, and
  `ws::laws` states what holds of these together.
- `app/` runs the connections: it spawns the task that waits for the upgrade, and sends and
  receives messages.
- `tests/` runs the library with the crates that it is built on.
