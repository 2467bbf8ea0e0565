# can-transport

A CAN / CAN-FD transport: a shared bus, filtered receive subscriptions, and two
backends, Linux SocketCAN and gs_usb (candleLight) adapters over USB.

- `src/` is the library. It does no I/O, and Verus proves its contracts: frames
  and filters, the fan-out to subscribers, the `gs_host_frame` codec, the bring-up
  and the clock of a gs_usb channel, the conversion to and from the frames of the
  `socketcan` crate, and the back-pressure rule of a SocketCAN send. Proof
  functions named `law_*` state what holds across calls.
- `app/` is the asynchronous code around it: the `CanBus` and `CanRx` traits,
  sockets, USB transfers, netlink queries, and the tasks that read.
- `tests/` runs the library.

What is trusted rather than proved stands in `src/channel.rs` (tokio's bounded
channels), `src/socket_can/frames.rs` (the frames of `socketcan`) and
`src/frame.rs` (std's identity conversion).
