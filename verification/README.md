# reboot_lib

The hardware-independent logic of a Nintendo DS/DSi firmware support library,
written in Verus and verified.

- `src/` is the verified library: register encodings (video, sound, NDMA, AES,
  interrupts, memory configuration), the inter-processor request protocol, the
  codec and touchscreen handling, the SD/MMC and SDIO bring-up sequences as
  state machines, the wifi firmware image format, the MOD music loader, the
  boot hand-over area, and the core of the immediate-mode GUI. Each public
  function states what it returns in its `ensures`; the properties that span
  several functions stand as public proof functions named `law_*`.
- `tests/` runs the library on concrete values.
- `app/` is the hardware side: register blocks, BIOS calls, the ARM7 service
  loop, interrupt dispatch and the drivers that perform the register accesses
  the library's state machines ask for. It is ordinary Rust and is not
  verified.

The state machines are driven from outside: the caller performs the action a
step returns (a command, a register write, a read) and hands the answer to the
next step.
