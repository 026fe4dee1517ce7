# bluest

Bluetooth LE devices and their L2CAP channels over CoreBluetooth, with the decisions verified in
Verus.

- `src/` is the library. `device` says what can be asked of a device, `operations` how a request is
  settled by the events of its peripheral. `l2cap_channel` holds the two halves of a channel,
  `read_loop` and `write_loop` the loops that serve its streams, and `queue` the `async_channel`
  queues between them, with what is taken on trust of that crate. `types` and `error` hold the
  values that all of them speak of. `laws` states what holds of the library as a whole.
- `app/` is what takes threads, waiting and the platform's objects. The platform layer comes in
  through the traits of `app/platform.rs`.
- `tests/` runs the library on concrete values.

The library touches no stream and asks nothing of the platform. It tells its caller what to do, and
is told what came of it. All that it waits for itself is its own queues.
