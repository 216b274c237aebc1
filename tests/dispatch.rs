use embassy_sync::blocking_mutex::raw::NoopRawMutex;
use embassy_sync::channel::Channel;
use little_car::control::{CarControl, Control, ControlMode};
use little_car::dispatch::Vehicle;

fn assert_reset(v: &Vehicle) {
    assert!(!v.car.ain1 && !v.car.ain2 && !v.car.bin1 && !v.car.bin2 && !v.car.enabled);
    assert!(v.servo.enabled);
    assert_eq!(v.servo.duty, 75);
}

#[test]
fn new_vehicle_centres_the_servo() {
    let v = Vehicle::new(1000);
    assert_reset(&v);
    assert_eq!(v.car.speed, 90);
    assert!(v.idle.level);
}

#[test]
fn autotrack_mode_resets_and_slows_down() {
    let mut v = Vehicle::new(1000);
    v.apply(Control::ServoSetAngle(180));
    v.apply(Control::Car(CarControl::Forward));
    v.apply(Control::IdleSetIdle(false));
    let published = v.apply(Control::ControlModeSet(ControlMode::AutoTrack));
    assert_eq!(published, Some(ControlMode::AutoTrack));
    assert_reset(&v);
    assert_eq!(v.car.speed, 50);
    assert!(!v.idle.level);
}

#[test]
fn remote_mode_resets_and_forces_idle() {
    let mut v = Vehicle::new(1000);
    v.apply(Control::ServoSetAngle(0));
    v.apply(Control::Car(CarControl::SetSpeed(30)));
    v.apply(Control::Car(CarControl::TurnLeft));
    v.apply(Control::IdleSetIdle(false));
    let published = v.apply(Control::ControlModeSet(ControlMode::Bluetooth));
    assert_eq!(published, Some(ControlMode::Bluetooth));
    assert_reset(&v);
    assert_eq!(v.car.speed, 90);
    assert!(v.idle.level);
}

#[test]
fn stop_forces_idle_and_other_intents_publish_nothing() {
    let mut v = Vehicle::new(1000);
    assert_eq!(v.apply(Control::IdleSetIdle(false)), None);
    assert!(!v.idle.level);
    assert_eq!(v.apply(Control::Car(CarControl::Forward)), None);
    assert!(v.car.enabled);
    assert_eq!(v.apply(Control::Car(CarControl::Stop)), None);
    assert!(v.idle.level);
    assert!(!v.car.enabled);
}

#[test]
fn disabled_idle_output_ignores_idle_requests() {
    let mut v = Vehicle::new(1000);
    v.apply(Control::IdleSetActive(false));
    assert!(!v.idle.level && !v.idle.enable);
    v.apply(Control::IdleSetIdle(true));
    v.apply(Control::ControlModeSet(ControlMode::Bluetooth));
    assert!(!v.idle.level);
}

#[test]
fn bus_delivers_in_enqueue_order() {
    let bus: Channel<NoopRawMutex, (u8, u32, Control), 10> = Channel::new();
    let remote = [Control::Car(CarControl::SetSpeed(60)), Control::Car(CarControl::Forward), Control::IdleSetIdle(false)];
    let nav = [Control::Car(CarControl::Stop), Control::ServoSetAngle(0)];
    let mut seq = [0u32; 2];
    for i in 0..3 {
        bus.try_send((0, seq[0], remote[i])).unwrap();
        seq[0] += 1;
        if i < 2 {
            bus.try_send((1, seq[1], nav[i])).unwrap();
            seq[1] += 1;
        }
    }
    let mut last = [None::<u32>; 2];
    let mut v = Vehicle::new(1000);
    let mut applied = Vec::new();
    while let Ok((who, n, c)) = bus.try_receive() {
        if let Some(prev) = last[who as usize] {
            assert!(n > prev);
        }
        last[who as usize] = Some(n);
        v.apply(c);
        applied.push(c);
    }
    assert_eq!(
        applied,
        vec![remote[0], nav[0], remote[1], nav[1], remote[2]]
    );
    assert_eq!(v.car.speed, 60);
    assert!(v.car.enabled);
    assert_eq!(v.servo.duty, 25);
}
