# max6675-hal

A driver core for the MAX6675 thermocouple-to-digital converter, verified with Verus.

- `src/lib.rs`: decoding of the two bytes of a read (open circuit on bit D2,
  temperature in quarter degrees Celsius) and the driver's error type.
- `src/hal.rs`: the steps of one read (chip select low, SPI exchange, chip
  select high) as a state machine, with its laws, the fault check of a raw
  read, and the `HalError` type.
- `src/error.rs`: the error type of a driver on a self-selecting SPI device.
- `src/temperature.rs`: temperatures counted in steps of 1/100 °F (1/180 °C
  or K), on which the conversions between Fahrenheit, Celsius and Kelvin are
  exact, with their laws.
- `app/`: the drivers that own the SPI bus and the pin and perform the steps,
  the printable copies of the error types, and floating-point degrees.
