# uart_remote

A remote serial port: a server shares its serial ports with clients over a WebSocket, and a client
uses them from a terminal or from a desktop shell. Any number of clients may read an open port; one
at a time may write to it.

- `src/` is the library, verified with Verus: the protocol frames, authentication, the right to
  write, the table of opened ports, a client's session on the server, and what the terminal client
  and the desktop shell make of the server's frames.
- `app/` is the program around it: sockets, serial ports, JSON, the command line and the window.
- `tests/` runs the library on concrete values.

The library decides and the program acts. A server hands what comes first from a client to
`session::Connection`, which has a session only for a client with the right token. It hands each
event after that to `session::Session`, performs the action that comes back, and calls
`Session::leave` however the session ends, so that a port is never left with a writer that has gone.

The proofs rest on claims about a few calls outside the library: the encoding and decoding of the
base64 engine, the random UUID, `String::from_utf8_lossy`, the `Debug` of `str`, and two conversions
with `From`. Each stands behind one declaration, whose comment says what is claimed of it.
