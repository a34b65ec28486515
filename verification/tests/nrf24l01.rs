use droner::constants::default_address;
use droner::nrf24l01::{BusOp, State, NRF24L01};

/// Every SPI write or transfer happens while CSN is low, and CSN ends high.
fn framed(ops: &[BusOp]) -> bool {
    let mut selected = false;
    for op in ops {
        match op {
            BusOp::CsnLow => selected = true,
            BusOp::CsnHigh => selected = false,
            BusOp::Write(_) | BusOp::Transfer(_) => {
                if !selected {
                    return false;
                }
            }
            _ => {}
        }
    }
    !selected
}

fn reg(reg: u8, value: u8) -> Vec<BusOp> {
    vec![BusOp::CsnLow, BusOp::Write(vec![0x20 | reg, value]), BusOp::CsnHigh]
}

#[test]
fn new_radio_is_standby() {
    assert_eq!(NRF24L01::new().get_state(), State::Standby);
}

#[test]
fn init_plan() {
    let mut radio = NRF24L01::new();
    let ops = radio.init();
    let mut expected = vec![BusOp::CeLow, BusOp::CsnHigh, BusOp::Delay(12_500_000)];
    expected.extend(reg(0x00, 0x08));
    expected.extend(reg(0x01, 0x01));
    expected.extend(reg(0x02, 0x01));
    expected.extend(reg(0x03, 0x03));
    expected.extend(reg(0x04, 0x1F));
    expected.extend(reg(0x05, 0x02));
    expected.extend(reg(0x06, 0x07));
    expected.extend(reg(0x07, 0x70));
    expected.extend(vec![
        BusOp::CsnLow,
        BusOp::Write(vec![0x2A]),
        BusOp::Write(vec![0xE7; 5]),
        BusOp::CsnHigh,
        BusOp::CsnLow,
        BusOp::Write(vec![0x30]),
        BusOp::Write(vec![0xE7; 5]),
        BusOp::CsnHigh,
    ]);
    expected.extend(reg(0x11, 0x20));
    expected.extend(vec![BusOp::CsnLow, BusOp::Transfer(vec![0xE1]), BusOp::CsnHigh]);
    expected.extend(vec![BusOp::CsnLow, BusOp::Transfer(vec![0xE2]), BusOp::CsnHigh]);
    expected.extend(reg(0x00, 0x0F));
    expected.extend(vec![BusOp::Delay(187_500), BusOp::CeHigh]);
    assert_eq!(ops, expected);
    assert!(framed(&ops));
    assert_eq!(radio.get_state(), State::Receiver);
}

#[test]
fn read_payload_plan_and_reply() {
    let radio = NRF24L01::new();
    let ops = radio.read_payload();
    let mut request = vec![0x61];
    request.extend(vec![0u8; 32]);
    assert_eq!(ops, vec![BusOp::CsnLow, BusOp::Transfer(request), BusOp::CsnHigh]);
    assert!(framed(&ops));
    let mut reply = [0u8; 33];
    for (i, b) in reply.iter_mut().enumerate() {
        *b = i as u8 + 100;
    }
    let payload = NRF24L01::payload_from_reply(&reply);
    assert_eq!(payload[0], 101);
    assert_eq!(payload[31], 132);
    assert_eq!(&payload[..], &reply[1..]);
}

#[test]
fn receiver_mode_plan() {
    let mut radio = NRF24L01::new();
    let ops = radio.set_receiver_mode();
    let mut expected = vec![BusOp::CeLow];
    expected.extend(reg(0x00, 0x0F));
    expected.push(BusOp::CeHigh);
    assert_eq!(ops, expected);
    assert!(framed(&ops));
    assert_eq!(radio.get_state(), State::Receiver);
}

#[test]
fn transmit_plan() {
    let mut radio = NRF24L01::new();
    radio.init();
    let mut payload = [0u8; 32];
    payload[0] = 0xAB;
    payload[31] = 0xCD;
    let ops = radio.transmit(&payload);
    let mut expected = vec![BusOp::CeLow];
    expected.extend(reg(0x00, 0x0E));
    expected.extend(vec![
        BusOp::CsnLow,
        BusOp::Write(vec![0xA0]),
        BusOp::Write(payload.to_vec()),
        BusOp::CsnHigh,
        BusOp::CeHigh,
        BusOp::Delay(1_250),
        BusOp::CeLow,
    ]);
    assert_eq!(ops, expected);
    assert!(framed(&ops));
    assert_eq!(radio.get_state(), State::Transmitter);
    radio.set_receiver_mode();
    assert_eq!(radio.get_state(), State::Receiver);
}

#[test]
fn status_is_a_nop_command() {
    let radio = NRF24L01::new();
    let ops = radio.read_status();
    assert_eq!(ops, vec![BusOp::CsnLow, BusOp::Transfer(vec![0xFF]), BusOp::CsnHigh]);
    assert_eq!(ops, radio.send_command(0xFF));
    assert!(framed(&ops));
    assert_eq!(NRF24L01::status_from_reply(&[0x0E]), 0x0E);
}

#[test]
fn send_command_plan() {
    let radio = NRF24L01::new();
    let ops = radio.send_command(0xE1);
    assert_eq!(ops, vec![BusOp::CsnLow, BusOp::Transfer(vec![0xE1]), BusOp::CsnHigh]);
    assert_eq!(radio.get_state(), State::Standby);
}

#[test]
fn clear_interrupts_plan() {
    let radio = NRF24L01::new();
    let ops = radio.clear_interrupts();
    assert_eq!(ops, reg(0x07, 0x70));
    assert!(framed(&ops));
}

#[test]
fn default_pipe_address() {
    assert_eq!(default_address(), [0xE7; 5]);
}

#[test]
fn mode_follows_the_last_mode_setting_call() {
    let mut radio = NRF24L01::new();
    radio.read_status();
    radio.clear_interrupts();
    radio.send_command(0xE1);
    radio.read_payload();
    assert_eq!(radio.get_state(), State::Standby);
    radio.init();
    assert_eq!(radio.get_state(), State::Receiver);
    radio.transmit(&[1u8; 32]);
    radio.read_status();
    assert_eq!(radio.get_state(), State::Transmitter);
    radio.set_receiver_mode();
    radio.clear_interrupts();
    assert_eq!(radio.get_state(), State::Receiver);
    radio.transmit(&[2u8; 32]);
    radio.read_payload();
    assert_eq!(radio.get_state(), State::Transmitter);
}
