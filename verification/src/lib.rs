//! Flight-control logic of a small RP2350 quadcopter: the controller command
//! decoder, the flight state machine, the nRF24L01 radio driver's bus
//! transactions, the MPU6050 measurement decoding and the ESC calibration
//! duty table.

pub mod command_generator;
pub mod constants;
pub mod esc;
pub mod flight_controller;
pub mod nrf24l01;
pub mod sensor_values;
