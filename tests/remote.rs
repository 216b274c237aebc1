use little_car::bluetooth::{RemoteEvent, RemoteLink, RemoteOp};
use little_car::control::{CarControl, Control, ControlMode};

/// Feeds the bytes to the link and returns the intents it sent and the bytes it
/// rejected.
fn feed(r: &mut RemoteLink, bytes: &[u8]) -> (Vec<Control>, Vec<u8>) {
    let mut sent = Vec::new();
    let mut rejected = Vec::new();
    let mut next = 0;
    loop {
        match r.next_op() {
            RemoteOp::Send(c) => {
                sent.push(c);
                r.step(RemoteEvent::Done);
            }
            RemoteOp::Listen => {
                if next == bytes.len() {
                    return (sent, rejected);
                }
                if let Some(b) = r.step(RemoteEvent::Byte(bytes[next])) {
                    rejected.push(b);
                }
                next += 1;
            }
        }
    }
}

#[test]
fn startup_enables_the_idle_output() {
    let mut r = RemoteLink::new();
    assert_eq!(r.next_op(), RemoteOp::Send(Control::IdleSetActive(true)));
    let (sent, _) = feed(&mut r, &[]);
    assert_eq!(sent, vec![Control::IdleSetActive(true)]);
}

#[test]
fn startup_request_survives_a_mode_change() {
    let mut r = RemoteLink::new();
    r.step(RemoteEvent::ModeChanged(ControlMode::AutoTrack));
    assert_eq!(r.next_op(), RemoteOp::Send(Control::IdleSetActive(true)));
    let (sent, _) = feed(&mut r, &[0x31]);
    assert_eq!(sent, vec![Control::IdleSetActive(true)]);
    let (sent, _) = feed(&mut r, &[]);
    assert!(sent.is_empty());
}

#[test]
fn authorised_commands_are_followed_by_idle() {
    let mut r = RemoteLink::new();
    feed(&mut r, &[]);
    let (sent, rejected) = feed(&mut r, &[0x31, 0x52, 0x30]);
    assert_eq!(
        sent,
        vec![
            Control::Car(CarControl::Forward),
            Control::IdleSetIdle(false),
            Control::Car(CarControl::SetSpeed(60)),
            Control::IdleSetIdle(false),
            Control::Car(CarControl::Stop),
            Control::IdleSetIdle(true),
        ]
    );
    assert!(rejected.is_empty());
}

#[test]
fn unknown_bytes_are_rejected_and_skipped() {
    let mut r = RemoteLink::new();
    feed(&mut r, &[]);
    let (sent, rejected) = feed(&mut r, &[0x99, 0x59, 0x37]);
    assert_eq!(sent, vec![Control::Car(CarControl::TurnLeft), Control::IdleSetIdle(false)]);
    assert_eq!(rejected, vec![0x99, 0x59]);
}

#[test]
fn autotrack_mode_discards_all_but_mode_bytes() {
    let mut r = RemoteLink::new();
    feed(&mut r, &[]);
    r.step(RemoteEvent::ModeChanged(ControlMode::AutoTrack));
    assert!(!r.enabled);
    let (sent, rejected) = feed(&mut r, &[0x31, 0x33, 0x55, 0x30, 0x41, 0x35]);
    assert_eq!(sent, vec![Control::ControlModeSet(ControlMode::Bluetooth)]);
    assert!(rejected.is_empty());
}

#[test]
fn mode_bytes_pass_while_authorised() {
    let mut r = RemoteLink::new();
    feed(&mut r, &[]);
    let (sent, _) = feed(&mut r, &[0x40]);
    assert_eq!(sent, vec![Control::ControlModeSet(ControlMode::AutoTrack)]);
}

#[test]
fn mode_change_between_command_and_idle_truncates() {
    let mut r = RemoteLink::new();
    feed(&mut r, &[]);
    r.step(RemoteEvent::Byte(0x35));
    assert_eq!(r.next_op(), RemoteOp::Send(Control::Car(CarControl::Backward)));
    r.step(RemoteEvent::Done);
    assert_eq!(r.next_op(), RemoteOp::Send(Control::IdleSetIdle(false)));
    r.step(RemoteEvent::ModeChanged(ControlMode::AutoTrack));
    assert_eq!(r.next_op(), RemoteOp::Listen);
    assert!(r.pending.is_empty());
}

#[test]
fn remote_mode_reauthorises_the_link() {
    let mut r = RemoteLink::new();
    feed(&mut r, &[]);
    r.step(RemoteEvent::ModeChanged(ControlMode::AutoTrack));
    r.step(RemoteEvent::ModeChanged(ControlMode::Bluetooth));
    let (sent, _) = feed(&mut r, &[0x38]);
    assert_eq!(sent, vec![Control::Car(CarControl::ForwardLeft), Control::IdleSetIdle(false)]);
}
