# openlogi

The decisions behind a Logitech HID++ host, written and proved in Verus: how
battery reports are decoded and shown, which battery protocol a device is read
through, how a device's probe is memoized between enumeration ticks, which HID
nodes are opened and shared, and how an unreadable configuration file is
recovered.

- `src/` is the library. It performs no I/O. Where a decision needs an answer from
  a device, the operating system or the user, a small state machine says what to
  ask next and takes the answer as a plain value.
- `tests/` runs the library on concrete values.
- `app/` is the host around it: HID nodes over `async-hid`, device sessions,
  forwarding of battery broadcasts with `tokio`, and the recovery window with
  `gpui`.

What the library states as a whole stands in public proof functions beside the
functions they speak of, such as `battery_probe_prefers_unified`,
`identity_survives_failed_reads`, `entry_survives_the_grace_exactly`,
`collections_share_a_key_per_interface` and `defaults_need_a_backup`.

Two functions of the standard library are believed without proof, both in
`src/text.rs`: `String::push` and `String::from_utf8`.
