# espflash_bridge

Flash and talk to an ESP32 target through a debug bridge on the network, in
place of a local serial port. A port name such as `bridge://192.168.1.50`
selects a bridge.

- `src/` is the library, verified with Verus. It decides and computes, and
  performs no I/O: an operation that needs I/O hands out its next step and
  takes the outcome back.
  - `address`: port names that select a bridge
  - `ports`: the bridge's network ports and the variables that override them
  - `http`: requests to the bridge, and the reset of a target
  - `connect`: connecting to a target, step by step, and the active bridge
  - `course`: what holds of whole attempts to connect
  - `port`: a socket as a serial port
  - `timeout`, `clear`: putting a timeout on a socket, clearing its buffers
  - `outside`: error types of other crates that are carried through
- `app/` performs the I/O.
- `tests/` runs the library.

`ESPBRIDGE_HTTP_PORT` and `ESPBRIDGE_FLASH_PORT` override the bridge's ports,
80 and 3333.
