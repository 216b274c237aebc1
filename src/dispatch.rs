use vstd::prelude::*;

use crate::car::Car;
use crate::control::{CarControl, Control, ControlMode};
use crate::idle::Idle;
use crate::servo::Servo;

verus! {

/// Cruising speed selected when the obstacle-avoidance routine takes over.
pub const AUTOTRACK_SPEED: u8 = 50;

/// Speed selected when the remote operator takes over.
pub const REMOTE_SPEED: u8 = 90;

/// Straight-ahead servo angle.
pub const CENTER_ANGLE: u8 = 90;

/// Every actuator the dispatcher owns.
#[derive(Clone, Copy, Debug, PartialEq, Eq, Structural)]
pub struct Vehicle {
    pub car: Car,
    pub servo: Servo,
    pub idle: Idle,
}

impl Vehicle {
    /// What applying one intent does to the idle output.
    pub open spec fn idle_after(self, c: Control) -> Idle {
        let forced = Idle { level: if self.idle.enable { true } else { self.idle.level }, ..self.idle };
        match c {
            Control::Car(CarControl::Stop) => forced,
            Control::IdleSetIdle(b) => Idle { level: if self.idle.enable { b } else { self.idle.level }, ..self.idle },
            Control::IdleSetActive(b) => Idle { level: b, enable: b },
            Control::ControlModeSet(ControlMode::Bluetooth) => forced,
            _ => self.idle,
        }
    }

    /// What applying one intent does to the drive motors.
    pub open spec fn car_after(self, c: Control) -> Car {
        match c {
            Control::Car(cc) => self.car.after(cc),
            Control::ControlModeSet(ControlMode::AutoTrack) => self.car.stopped().after(CarControl::SetSpeed(AUTOTRACK_SPEED)),
            Control::ControlModeSet(ControlMode::Bluetooth) => self.car.stopped().after(CarControl::SetSpeed(REMOTE_SPEED)),
            _ => self.car,
        }
    }

    /// The servo angle that one intent commands, if any.
    pub open spec fn commanded_angle(c: Control) -> Option<u8> {
        match c {
            Control::ServoSetAngle(a) => Some(a),
            Control::ControlModeSet(_) => Some(CENTER_ANGLE),
            _ => None,
        }
    }

    /// Starts with the motors released, the servo centred and the idle output on.
    pub fn new(servo_max_duty: u16) -> (r: Vehicle)
        ensures
            r.car.is_stopped(),
            r.car.duty_a == 0 && r.car.duty_b == 0,
            r.car.speed == crate::car::START_SPEED,
            r.servo.max_duty == servo_max_duty,
            r.servo.points_at(CENTER_ANGLE),
            r.idle.level && r.idle.enable,
    {
        let mut servo = Servo::new(servo_max_duty);
        servo.set_angle(CENTER_ANGLE);
        Vehicle { car: Car::new(), servo, idle: Idle::new() }
    }

    /// Applies one intent taken off the command bus. A mode change centres the
    /// servo, stops the motors and selects the mode's speed; the mode is handed
    /// back so that the caller publishes it to the producers.
    pub fn apply(&mut self, c: Control) -> (published: Option<ControlMode>)
        ensures
            final(self).car == old(self).car_after(c),
            final(self).idle == old(self).idle_after(c),
            final(self).servo.max_duty == old(self).servo.max_duty,
            match Self::commanded_angle(c) {
                Some(a) => final(self).servo.points_at(a),
                None => final(self).servo == old(self).servo,
            },
            published == match c {
                Control::ControlModeSet(m) => Some(m),
                _ => None::<ControlMode>,
            },
    {
        match c {
            Control::Car(cc) => {
                self.car.apply(cc);
                if let CarControl::Stop = cc {
                    self.idle.set_idle(true);
                }
                None
            },
            Control::ServoSetAngle(a) => {
                self.servo.set_angle(a);
                None
            },
            Control::IdleSetIdle(b) => {
                self.idle.set_idle(b);
                None
            },
            Control::IdleSetActive(b) => {
                self.idle.set_enable(b);
                None
            },
            Control::ControlModeSet(m) => {
                self.servo.set_angle(CENTER_ANGLE);
                self.car.stop();
                match m {
                    ControlMode::AutoTrack => {
                        self.car.set_speed(AUTOTRACK_SPEED);
                    },
                    ControlMode::Bluetooth => {
                        self.car.set_speed(REMOTE_SPEED);
                        self.idle.set_idle(true);
                    },
                }
                Some(m)
            },
        }
    }
}

/// A mode change, whatever the vehicle was doing, releases the motors and
/// centres the servo. Taking autonomy selects the cruising speed; handing
/// control to the operator selects the remote speed and turns the idle output
/// on, provided that output is enabled.
pub proof fn lemma_mode_change_resets(v: Vehicle, m: ControlMode)
    ensures
        v.car_after(Control::ControlModeSet(m)).is_stopped(),
        Vehicle::commanded_angle(Control::ControlModeSet(m)) == Some(CENTER_ANGLE),
        m == ControlMode::AutoTrack ==> v.car_after(Control::ControlModeSet(m)).speed == AUTOTRACK_SPEED,
        m == ControlMode::Bluetooth ==> v.car_after(Control::ControlModeSet(m)).speed == REMOTE_SPEED,
        m == ControlMode::Bluetooth && v.idle.enable ==> v.idle_after(Control::ControlModeSet(m)).level,
{
}

} // verus!
