# ble_scanner

A Bluetooth Low Energy scanner whose decisions are verified with Verus.

- `src/` is the verified library. It never waits and never talks to an adapter.
  - `config.rs`, `filter.rs`, `predicate.rs`: which devices a scan looks for and when it stops.
  - `protocol.rs`, `model.rs`, `worker.rs`: the scan as a state machine that turns each reply of
    the adapter into the next request and, at times, a report. `model.rs` holds its mathematical
    model, `worker.rs` the code that is proved to follow it.
  - `laws.rs`: what holds of every scan, such as that no device is discovered twice and that
    nothing is reported about a device that failed the configuration.
  - `scanner.rs`, `device.rs`: starting and stopping a scan, and what can be asked of a device.
  - `address.rs`, `identifier.rs`: addresses and identifiers.
- `app/` performs the requests with `btleplug` and hands the reports to its clients as streams.
- `tests/` runs the library against a simulated adapter.

A predicate that is given to a configuration is asked about what the device itself shows: its
address, its name, its signal strength, its services or its characteristics. Where a predicate on
a property is set, it decides in place of the values that are listed for that property. A device
that has to show characteristics and cannot be connected is rejected.

A scan can be told the time whatever it waits for, and is then over if its duration is up or
somebody asked it to stop. The duration runs from the beginning of the scan.
