# hoshiguma_telemetry

The verified core of the Hoshiguma telemetry module: the small RPC protocol
that links the module to the machine controller, and the decisions its
firmware makes about telemetry, metrics, MQTT publications and the display.

Layout:

- `src/rpc/` — the request/response protocol. `ClientState` and
  `ServerState` judge each message of an exchange. `ClientCall`,
  `RequestWait` and `ResponseSend` run one exchange a transport call at a
  time: each step takes what the last call gave back and names the next call,
  and their contracts fix the order of the calls and the result for every
  reply. `Client` and `Server` drive them over a synchronous `Transport`; the
  verified `Client` and `Server` cover synchronous transports only, and
  asynchronous drivers (those in `app/`) run the same steps themselves.
  `laws.rs` holds the protocol's laws.
- `src/firmware/` — screens, metric lines and the metric buffer, MQTT
  publications and the order in which they go out, display rows, task
  accounting, button handling and the self-telemetry data points.
- `tests/` — tests of the library on concrete values.
- `app/` — the parts that need hardware, async runtimes or I/O: transports
  over tokio channels, serial ports and embedded byte streams, and the
  firmware's tasks.

Verify with Verus; the tests are ordinary Rust tests.
