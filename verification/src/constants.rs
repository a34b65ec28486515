//! Integer configuration of the flight controller, its sensor and its radio.
//! The floating-point calibration constants live with the floating-point
//! code outside the verified library.

use vstd::prelude::*;

verus! {

/// External high-speed crystal on the Pico board: 12 MHz.
pub const EXTERNAL_XTAL_FREQ_HZ: u32 = 12_000_000;

pub const BAUD_RATE: u32 = 460_800;

/// I2C address of the MPU6050 sensor.
pub const SENSOR_I2C_ADDR: u8 = 0x68;

/// First register of the MPU6050 measurement block.
pub const SENSOR_DATA_REG: u8 = 0x3B;

/// Length of the MPU6050 measurement block (accel, temperature, gyro).
pub const SENSOR_DATA_NUM_BYTES: usize = 14;

/// PWM duty at which the ESCs hold the motors idle.
pub const MOTOR_MIN: u16 = 2000;

/// Highest PWM duty the flight controller commands.
pub const MOTOR_MAX: u16 = 4000;

/// Throttle held while the drone is feathering down (a failsafe descent).
pub const MOTOR_FEATHER: u16 = 2500;

/// PWM counter top: 20000 counts per period.
pub const PWM_TOP: u16 = 20000;

/// nRF24L01 maximum SPI clock is 10 MHz, 8 MHz is used to be safe.
pub const SPI_BAUDRATE: u32 = 8_000_000;

pub const SPI_PERIPHERAL_CLK: u32 = 125_000_000;

// nRF24L01 register addresses
pub const REG_CONFIG: u8 = 0x00;

pub const REG_EN_AA: u8 = 0x01;

pub const REG_EN_RXADDR: u8 = 0x02;

pub const REG_SETUP_AW: u8 = 0x03;

pub const REG_SETUP_RETR: u8 = 0x04;

pub const REG_RF_CH: u8 = 0x05;

pub const REG_RF_SETUP: u8 = 0x06;

pub const REG_STATUS: u8 = 0x07;

pub const REG_RX_ADDR_P0: u8 = 0x0A;

pub const REG_TX_ADDR: u8 = 0x10;

pub const REG_RX_PW_P0: u8 = 0x11;

// nRF24L01 SPI commands
/// W_REGISTER: OR-ed with the register address.
pub const CMD_W_REGISTER: u8 = 0x20;

pub const CMD_W_TX_PAYLOAD: u8 = 0xA0;

pub const CMD_R_RX_PAYLOAD: u8 = 0x61;

pub const CMD_FLUSH_TX: u8 = 0xE1;

pub const CMD_FLUSH_RX: u8 = 0xE2;

/// No operation; the chip answers with its STATUS register.
pub const CMD_NOP: u8 = 0xFF;

// nRF24L01 CONFIG register values
/// EN_CRC only (PWR_UP = 0, PRIM_RX = 0).
pub const CONFIG_PWR_DOWN: u8 = 0x08;

/// PWR_UP | PRIM_RX | EN_CRC | CRCO.
pub const CONFIG_RX_MODE: u8 = 0x0F;

/// PWR_UP | EN_CRC | CRCO (PRIM_RX = 0).
pub const CONFIG_TX_MODE: u8 = 0x0E;

/// STATUS value that clears the RX_DR, TX_DS and MAX_RT interrupt flags.
pub const STATUS_CLEAR_IRQ: u8 = 0x70;

// nRF24L01 configuration values
/// Auto-acknowledge on pipe 0.
pub const EN_AA_PIPE0: u8 = 0x01;

/// Receive address enabled on pipe 0.
pub const EN_RXADDR_PIPE0: u8 = 0x01;

/// 5-byte address width.
pub const SETUP_AW_5BYTES: u8 = 0x03;

/// ARD = 500 us, ARC = 15.
pub const SETUP_RETR_500US_15: u8 = 0x1F;

/// 2.402 GHz channel.
pub const RF_CH_2402MHZ: u8 = 0x02;

/// 1 Mbps, 0 dBm.
pub const RF_SETUP_1MBPS_0DBM: u8 = 0x07;

/// Payload width of pipe 0: 32 bytes.
pub const RX_PW_P0_32BYTES: u8 = 0x20;

/// Every byte of the default pipe address.
pub const DEFAULT_ADDRESS_BYTE: u8 = 0xE7;

/// Width of the pipe address in bytes.
pub const ADDRESS_WIDTH: usize = 5;

/// The pipe address used for both receiving and transmitting.
pub open spec fn spec_default_address() -> Seq<u8> {
    Seq::new(ADDRESS_WIDTH as nat, |i: int| DEFAULT_ADDRESS_BYTE)
}

/// The pipe address used for both receiving and transmitting: five bytes 0xE7.
pub fn default_address() -> (address: [u8; 5])
    ensures
        address@ == spec_default_address(),
{
    let address = [DEFAULT_ADDRESS_BYTE; 5];
    assert(address@ =~= spec_default_address());
    address
}

/// The default pipe address is five bytes 0xE7.
pub proof fn law_default_address()
    ensures
        spec_default_address() == seq![0xE7u8, 0xE7, 0xE7, 0xE7, 0xE7],
{
    assert(spec_default_address() =~= seq![0xE7u8, 0xE7, 0xE7, 0xE7, 0xE7]);
}

} // verus!
