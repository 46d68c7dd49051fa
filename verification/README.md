# video_sync

The verified core of a small server that keeps the screens of several
clients in sync: clients send media over a websocket, the server queues it
and broadcasts each item for as long as its timeout says, and tells every
client how many clients are connected. Clients can also upload files, which
are served back for two minutes.

- `src/ws/message.rs`: the messages of the websocket protocol.
- `src/ws/handler.rs`: the rules of one websocket session, as functions from
  an event to the action to take and whether the session goes on, and the
  client counts announced on arrival and departure.
- `src/broadcast.rs`: the tokio broadcast channel, with the record of every
  value handed to it, kept by the trusted calls alone.
- `src/queue.rs`: the timed queue: items leave in the order they came, each
  followed by its own delay.
- `src/upload.rs`, `src/uploads.rs`: naming, storage paths and replies of
  uploads and of the assets served from them.
- `app/`: the axum server around the library: routing, sockets, files,
  timers, and the JSON form of the messages.
