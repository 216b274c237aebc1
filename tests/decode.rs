use little_car::bluetooth::{decode, BluetoothAction};
use little_car::control::{CarControl, ControlMode};

#[test]
fn speed_bytes_map_to_fifty_through_ninety() {
    let expected: [u8; 9] = [50, 55, 60, 65, 70, 75, 80, 85, 90];
    for (i, s) in expected.iter().enumerate() {
        let b = 0x50 + i as u8;
        assert_eq!(decode(b), Ok(BluetoothAction::Car(CarControl::SetSpeed(*s))));
    }
}

#[test]
fn direction_bytes_follow_the_table() {
    let table = [
        (0x30, CarControl::Stop),
        (0x31, CarControl::Forward),
        (0x32, CarControl::ForwardRight),
        (0x33, CarControl::TurnRight),
        (0x34, CarControl::BackwardRight),
        (0x35, CarControl::Backward),
        (0x36, CarControl::BackwardLeft),
        (0x37, CarControl::TurnLeft),
        (0x38, CarControl::ForwardLeft),
    ];
    for (b, c) in table {
        assert_eq!(decode(b), Ok(BluetoothAction::Car(c)));
    }
}

#[test]
fn mode_bytes_select_modes() {
    assert_eq!(decode(0x40), Ok(BluetoothAction::ControlMode(ControlMode::AutoTrack)));
    assert_eq!(decode(0x41), Ok(BluetoothAction::ControlMode(ControlMode::Bluetooth)));
}

#[test]
fn unknown_bytes_are_reported_with_their_value() {
    for b in [0x00u8, 0x2f, 0x39, 0x3f, 0x42, 0x4f, 0x59, 0x60, 0xff] {
        assert_eq!(decode(b), Err(b));
    }
}

#[test]
fn decoding_is_total_and_repeatable() {
    let mut known = 0;
    for b in 0u8..=255 {
        let first = decode(b);
        assert_eq!(first, decode(b));
        match first {
            Ok(_) => known += 1,
            Err(e) => assert_eq!(e, b),
        }
        if b >= 0x59 {
            assert_eq!(first, Err(b));
        }
    }
    assert_eq!(known, 9 + 9 + 2);
}
