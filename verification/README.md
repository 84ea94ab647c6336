# dropbot

Firmware logic of a swarm of small robots that locate themselves on a floor by ultra-wideband
ranging against four fixed anchors. The logic is a verified library: every function in `src/` is
proved by Verus to meet the contract in its header, and the public proof functions state what holds
of several of them together.

- `src/uwb`: the ranging protocol. Frames, the TDMA superframe, radio time, clock-rate tracking,
  single- and double-sided two-way ranging, fingerprints, decisions about the radio.
- `src/storage`: the antenna-delay record and its two-sector journal in flash.
- `src/fixture`: the three-node calibration fixture.
- `src/anchor`: an anchor's superframe loop, fuel gauge, power button and calibration manifest.
- `src/battery.rs`, `src/display`: the robot's pack and its status display.
- `src/robot`: the robot's identity, configuration, sensors, motors and estimators' decisions.
- `tests`: the library on concrete values.
- `app`: ordinary Rust around the library: buses, radios, timers, flash, wire formats, and the
  estimators that compute in floating point.

Work that takes time is done outside the library. A state machine gives a command (`Send`,
`Receive`, wait until an instant), the firmware performs it and hands the outcome back as a reply;
the contracts hold whatever the outcome is.

What is believed without proof is in `src/display/label.rs`, `src/display/wrap.rs` and
`src/robot/configuration.rs`: a few calls into the `heapless` crate, and `char::is_whitespace`.
