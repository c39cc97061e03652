# shield_bsp

Board support for a test shield that sits between a Raspberry Pi RP2350B and
a device under test. The shield switches power to two USB ports (each with an
INA219 current monitor) and connects 27 pins to the device under test.

`src/` is a Verus library with the shield's decisions as verified state
machines: the host loop asks each machine for its next action, performs it on
the hardware and reports what it read.

- `stuck`: is a pin stuck at one level? (five rounds of pull-down/pull-up)
- `shorts`: are any two pins connected to each other?
- `power_check`: does a USB power switch switch? (bus voltage off/on, shunt)
- `monitor`, `usb_power`: INA219 addressing and configuration, line polarity
- `selftest`: order of all checks and the overall verdict

`app/` is the embassy firmware that drives the machines on the hardware; it
sets up a small heap (`embedded-alloc`) for the library's `Vec`s. It needs the
RP2350 target: `embassy-rp` and `embassy-executor` are not listed in
`Cargo.toml` because they do not build for the host that verifies and tests
the library.
