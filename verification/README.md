# bumble_host

The host side of a Bluetooth stack, verified with Verus.

A `Device` sits on top of a controller. It hands HCI commands and data to a
`HostTransport`, takes packets from it, and keeps what they tell: connections
and their state, isochronous streams, advertisements, inquiry results, requests
of peers, and a journal of events.

## Layout

- `src/` is the verified library.
  - `device.rs` and `state.rs` hold the state of a device and its model, a
    `DeviceView`.
  - `process.rs` and `poll.rs` say what every packet does to it, and `pump.rs`
    drives several devices until no more packets flow.
  - `setup.rs`, `power.rs`, `lifecycle.rs` and `disconnect.rs` bring a device
    up and connections down.
  - The other modules hold one concern each: advertising, connecting, Classic
    links, isochronous streams, encryption and pairing, channels, peer lookups,
    packet pools.
  - `laws.rs` and `history.rs` state what holds across operations.
- `tests/` runs the library on concrete packets.
- `app/` puts the device to work: it owns the attribute server, the channel and
  pairing managers, the key store and the listeners, and converts between the
  library's types and those of the surrounding crates.

## Contracts

Every operation states, over the model, the state that it leaves behind, and,
over the log of its transport, what it hands over, takes and asks for. Where a
packet concerns something outside of the library, processing pauses with a
`FollowUp`; its owner performs it and calls `resume`, or lets the `Pump` that
named the device run again.

The library rests on one trusted function, `text::from_utf8`, around the
function of that name in the standard library.
