# alvr_connection

The connection logic of a wireless headset streaming link: how a headset and a PC find each other,
how they answer each other on the control socket, and how they set up and end a stream.

`src/` is the library. Its functions have contracts that Verus proves, and the properties that span
functions stand as `law_*` proof functions beside them. The one thing taken on trust is that
`serde_json::from_str` depends on its text alone (`client_stream`). Loops that wait for the network, a device or
a task are functions from a phase and an event to the next phase and the actions to take.

- `sockets`, `client`, `client_stream`, `lobby`: the headset.
- `handshake`, `clients`, `server`, `video_request`, `openvr`, `server_stream`: the PC.
- `packets`, `send_loop`, `session`, `net`, `time`, `error`: what both share.
- `float32`, `text`, `table`: numbers by their bit patterns, text from numbers, tables by key.

`app/` runs the library: sockets, threads, tasks, the wire format and floating point arithmetic.
`tests/` run the library on concrete values.
