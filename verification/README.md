# ptyctl

A server that exposes a pseudo-terminal session over HTTP and WebSocket.

`src/` is the verified library: it decides, and does nothing that takes time or
reaches the outside. Each of its machines names one action at a time and takes
what came of it as an event.

- `range`, `screen`, `wait`: what the parameters of a request ask for.
- `handler`: how a request is served, and when the session is locked for it.
- `reply`, `json`: what a request is answered with. JSON comes from `serde_json`.
- `routes`: where each endpoint is found.
- `ws`: how a WebSocket connection goes.
- `watch`, `lifecycle`: when the server ends.
- `number`, `time`: decimal numbers and durations.
- `handler_laws`, `lifecycle_laws`, `server_laws`, `ws_laws`: what holds of every
  run of the machines.

`app/` performs the actions with axum and tokio. The session itself is a trait
there, to be implemented by whoever runs the terminal.
