# imxrt_pwm

A verified model of the i.MX RT eFlexPWM driver, written in Verus.

- `src/registers.rs`: the register block of one PWM peripheral, what each
  write does to it (`MCTRL`'s load-okay commands and `FSTS0`'s
  write-one-to-clear fault flags included), and `replay` of a run of writes.
- `src/ccm.rs`: clock selection, prescaler, the `CCGR4` clock gates, and the
  conversion of a switching period into clock ticks.
- `src/time.rs`: spans of time as seconds and nanoseconds.
- `src/pwm.rs`: the driver: `Unclocked::clock`, `Submodule::outputs`,
  `Pins::control` and the `Controller` operations, with their contracts and
  the laws that relate them.
- `app/`: `embedded_hal::Pwm` for the controller, with `core::time::Duration`
  periods; `flush`, which hands a handle's writes to a register bus;
  `refresh`, which reads back what the hardware changes on its own (`LDOK`
  bits, fault status) into the handle; and `clock`, which also writes the
  clock gates to the clock controller.
