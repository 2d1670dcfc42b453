# zebar

The audio (PulseAudio) and sway providers of a desktop widget backend, with
their logic verified by Verus.

- `src/` is the verified library: the PulseAudio device store and the
  provider output built from it, the reading of the server's state in
  rounds, the client's decisions (waiting for the connection, serving
  requests, turning a request into a command), volume levels and the
  percent-to-volume conversion, the sway output and its equality, the
  outcome of a sway command, the providers' message routing, and the
  placement of an app bar window.
- `app/` holds what talks to the outside world: the libpulse main loop and
  callbacks, the sway IPC connections, the providers' event loops, the
  floating-point parts of the volume conversions, and serialisable copies
  of the output types.
- `tests/` runs the library on concrete values.
