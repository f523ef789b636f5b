# air_sensors

The verified core of a high-altitude sensor platform: the register
encodings and byte layouts of its sensors (AS7341 spectral sensor, BMP280
barometer, BNO055 orientation sensor, TEL0157 GNSS receiver, SX1276 LoRa
radio), the conversions between durations and register values, the parsing
of kernel statistics and of the radio modem's packet reports, the encrypted
radio frame, and the small decision machines of the periodic tasks.

- `src/` is the library, checked by Verus: every function carries a
  contract, and the laws that relate functions are proof functions.
- `tests/` runs the library on concrete values.
- `app/` holds the device drivers, tasks and programs around the library:
  I2C, SPI, serial and file I/O, async plumbing, and the floating-point
  conversions to physical units.
