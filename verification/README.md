# embassy-zynq7000

Drivers for the Zynq-7000 processing system, verified with Verus.

`src/` is the verified library. It decides: which registers are written, in which order and
with which values, what a register that was read means, how a transfer goes on after an
interrupt, and what its caller is told. Register accesses are plain values. A function that
would touch the hardware returns the accesses to perform; a function that depends on the
hardware takes what was read. Polling loops and interrupts are step functions on a state.

| module | what it decides |
| --- | --- |
| `clocks`, `ttc`, `gtc`, `time`, `platform` | clock tree, PWM, timer, time driver and alarms |
| `gpio`, `chip`, `slcr` | pin configuration and pin routes |
| `interrupt`, `runtime`, `multicore`, `init` | interrupt controller, dispatch, lock, bring-up |
| `cache`, `l2_cache`, `hal::dma` | cache maintenance for DMA |
| `uart`, `hal::uart` | blocking and interrupt-driven transfers |
| `i2c`, `qspi`, `sdmmc` | bus transfers, flash operations, SD card identification and blocks |
| `usb`, `hal::usb`, `pac::usb` | device controller, control transfers, endpoints |
| `hal::devcfg`, `hal::watchdog`, `hal::reset`, `hal::xadc`, `pac::xadc` | the other peripherals |
| `log` | frames in a ring buffer |
| `examples` | decisions of the demonstration programs |

`app/` performs the accesses through port traits that a board implements. It holds the
interrupt and task plumbing and offers the drivers through `embedded-hal`, `embedded-io`,
`embedded-storage`, `embassy-usb-driver`, `embassy-time-driver` and `log`. Floating-point
conversions stand there too.

`tests/` runs the library on concrete values.
