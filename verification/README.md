# luhbots

Verified firmware building blocks of the luhbots robot soccer system: the
peripheral logic of the ATSAM4E microcontroller (clocks, flash controller, USB
endpoints, Ethernet controller and its PHY, ADC, SPI, timers, GPIO, watchdog,
static memory controller, chip identification), the robots' radio and UART
message handling at the basestation and between the controllers, the decisions of
the basestation's network poll and radio round, the kicker and dribbler drivers, the PID
controller, and the BMI270 driver's start-up sequence, offset calibration and reading
conversions.

- `src/` is the library, verified with Verus. Peripheral functions compute the
  register values or the sequence of register accesses an operation needs and
  decide on the status values read back; the contracts state them exactly.
- `tests/` runs the library on concrete values.
- `app/` carries out the register accesses on the chip (clocks, flash, Ethernet,
  USB endpoints, SPI, GPIO, watchdog), encodes the messages
  with postcard, runs the network and the radio round, performs the BMI270's SPI
  transfers along the start-up the library lays out, scales the server's
  real-valued packets, and adapts `embedded-hal` pins to the library's pin traits.
  The BMI270's configuration file is not part of this crate: its driver takes it as
  an argument.
