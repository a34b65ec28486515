# droner

Flight software for a small RP2350 quadcopter, split in two.

`src/` is the verified library (Verus):

- `command_generator`: turns successive game-controller snapshots into
  flight commands (button edges, the arm and disarm button sequences,
  throttle from the right trigger, at most ten commands per snapshot).
- `flight_controller`: the flight state machine (standby, on, feather) and
  its base throttle, with the invariant that standby means minimum throttle
  and feathering means the feather throttle.
- `nrf24l01`: the nRF24L01 radio driver as plans of bus actions (pin
  levels, SPI writes and transfers, delays), every plan framed by chip
  select.
- `sensor_values`: decoding of the MPU6050 measurement block.
- `esc`: the serial ESC test mode's duty table and the calibration duty.
- `constants`: the integer configuration.

`app/` is the board program (RTIC on the RP2350): peripherals, the
floating-point rate controllers and motor mixer, the unit conversion of the
sensor readings, and the execution of the radio driver's plans.
