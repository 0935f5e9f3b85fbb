# RTP Proxy

A proxy for RTP traffic over UDP or TCP, controlled over gRPC. A controller creates a session
with three endpoints: where to listen, which address to forward from, and where to forward to.
The proxy binds the sockets, forwards packets to the destination and what comes back to the
client, counts them, and reports what happens.

What the proxy decides is in `src/`, a library whose contracts are proved with Verus. It performs
no input or output: a caller carries out what it asks for (bind this socket, send this packet)
and hands the result back.

- `transport`: which sockets a session binds and in what order, the connections of a TCP session,
  and what the results of socket operations mean.
- `session`: the session with its state, counters and events; what its forwarding tasks do; its
  creation; the manager that holds all sessions.
- `grpc_server`, `proto`: the messages of the control interface and how requests are answered.
- `config`, `error`, `addr`, `payload`, `clock`, `text`, `model`: configuration, errors, socket
  addresses, packet payloads, time stamps, text, and views of compound values.
- `properties`: what holds across several operations.

`app/` is the server itself: sockets, tasks, the configuration file, and the gRPC transport.
`tests/` runs the library on concrete values.

A session is created with an id that the controller chooses. By default the control server
listens on `[::]:50051`; `config.toml` can say otherwise.
