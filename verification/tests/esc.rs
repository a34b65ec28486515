use droner::constants::{MOTOR_MAX, MOTOR_MIN, PWM_TOP};
use droner::esc::{esc_calibration_duty, esc_duty};

#[test]
fn digits_select_duties() {
    assert_eq!(esc_duty(b'0'), Some(2000));
    assert_eq!(esc_duty(b'1'), Some(2222));
    assert_eq!(esc_duty(b'2'), Some(2500));
    assert_eq!(esc_duty(b'3'), Some(2857));
    assert_eq!(esc_duty(b'4'), Some(3333));
    assert_eq!(esc_duty(b'5'), Some(4000));
}

#[test]
fn other_bytes_are_not_commands() {
    for byte in 0..=255u8 {
        if !(b'0'..=b'5').contains(&byte) {
            assert_eq!(esc_duty(byte), None);
        }
    }
    assert_eq!(esc_duty(b'6'), None);
    assert_eq!(esc_duty(b'/'), None);
}

#[test]
fn duties_rise_within_motor_range() {
    let duties: Vec<u16> = (b'0'..=b'5').map(|b| esc_duty(b).unwrap()).collect();
    assert!(duties.windows(2).all(|w| w[0] < w[1]));
    assert_eq!(duties[0], MOTOR_MIN);
    assert_eq!(duties[5], MOTOR_MAX);
}

#[test]
fn calibration_duty() {
    assert_eq!(esc_calibration_duty(), PWM_TOP / 10);
    assert_eq!(esc_calibration_duty(), 2000);
}
