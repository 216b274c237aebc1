use vstd::prelude::*;

use crate::control::CarControl;

verus! {

/// The drive motors as the H-bridge sees them: the four direction inputs, the
/// duty cycle (percent) of each PWM channel, whether both channels are enabled,
/// and the commanded speed that the next motion uses.
#[derive(Clone, Copy, Debug, PartialEq, Eq, Structural)]
pub struct Car {
    pub ain1: bool,
    pub ain2: bool,
    pub bin1: bool,
    pub bin2: bool,
    pub duty_a: u8,
    pub duty_b: u8,
    pub enabled: bool,
    pub speed: u8,
}

/// Speeds are percentages; larger values are clamped.
pub const MAX_SPEED: u8 = 100;

/// Speed of a freshly started car.
pub const START_SPEED: u8 = 90;

impl Car {
    /// The car with both channels running in the given direction at the given duties.
    pub open spec fn driving(self, ain1: bool, ain2: bool, bin1: bool, bin2: bool, duty_a: u8, duty_b: u8) -> Car {
        Car { ain1, ain2, bin1, bin2, duty_a, duty_b, enabled: true, speed: self.speed }
    }

    /// Motors released: every direction input low, both channels disabled.
    pub open spec fn stopped(self) -> Car {
        Car { ain1: false, ain2: false, bin1: false, bin2: false, enabled: false, ..self }
    }

    /// Whether the motors are released.
    pub open spec fn is_stopped(self) -> bool {
        !self.ain1 && !self.ain2 && !self.bin1 && !self.bin2 && !self.enabled
    }

    /// The state after one drive request. Soft turns run the inner wheel at half speed.
    pub open spec fn after(self, c: CarControl) -> Car {
        let s = self.speed;
        let h = (self.speed / 2) as u8;
        match c {
            CarControl::Stop => self.stopped(),
            CarControl::Forward => self.driving(false, true, false, true, s, s),
            CarControl::Backward => self.driving(true, false, true, false, s, s),
            CarControl::TurnLeft => self.driving(true, false, false, true, s, s),
            CarControl::TurnRight => self.driving(false, true, true, false, s, s),
            CarControl::ForwardLeft => self.driving(false, true, false, true, h, s),
            CarControl::ForwardRight => self.driving(false, true, false, true, s, h),
            CarControl::BackwardLeft => self.driving(true, false, true, false, h, s),
            CarControl::BackwardRight => self.driving(true, false, true, false, s, h),
            CarControl::SetSpeed(v) => Car { speed: if v <= MAX_SPEED { v } else { MAX_SPEED }, ..self },
        }
    }

    pub fn new() -> (r: Car)
        ensures
            r.is_stopped(),
            r.duty_a == 0 && r.duty_b == 0,
            r.speed == START_SPEED,
    {
        Car {
            ain1: false,
            ain2: false,
            bin1: false,
            bin2: false,
            duty_a: 0,
            duty_b: 0,
            enabled: false,
            speed: START_SPEED,
        }
    }

    fn drive_with(&mut self, ain1: bool, ain2: bool, bin1: bool, bin2: bool, duty_a: u8, duty_b: u8)
        ensures
            *final(self) == old(self).driving(ain1, ain2, bin1, bin2, duty_a, duty_b),
    {
        self.ain1 = ain1;
        self.ain2 = ain2;
        self.bin1 = bin1;
        self.bin2 = bin2;
        self.duty_a = duty_a;
        self.duty_b = duty_b;
        self.enabled = true;
    }

    pub fn set_speed(&mut self, speed: u8)
        ensures
            *final(self) == old(self).after(CarControl::SetSpeed(speed)),
    {
        self.speed = if speed <= MAX_SPEED { speed } else { MAX_SPEED };
    }

    pub fn stop(&mut self)
        ensures
            *final(self) == old(self).after(CarControl::Stop),
    {
        self.ain1 = false;
        self.ain2 = false;
        self.bin1 = false;
        self.bin2 = false;
        self.enabled = false;
    }

    pub fn forward(&mut self)
        ensures
            *final(self) == old(self).after(CarControl::Forward),
    {
        let s = self.speed;
        self.drive_with(false, true, false, true, s, s);
    }

    pub fn backward(&mut self)
        ensures
            *final(self) == old(self).after(CarControl::Backward),
    {
        let s = self.speed;
        self.drive_with(true, false, true, false, s, s);
    }

    pub fn turn_left(&mut self)
        ensures
            *final(self) == old(self).after(CarControl::TurnLeft),
    {
        let s = self.speed;
        self.drive_with(true, false, false, true, s, s);
    }

    pub fn turn_right(&mut self)
        ensures
            *final(self) == old(self).after(CarControl::TurnRight),
    {
        let s = self.speed;
        self.drive_with(false, true, true, false, s, s);
    }

    pub fn forward_left(&mut self)
        ensures
            *final(self) == old(self).after(CarControl::ForwardLeft),
    {
        let s = self.speed;
        self.drive_with(false, true, false, true, s / 2, s);
    }

    pub fn forward_right(&mut self)
        ensures
            *final(self) == old(self).after(CarControl::ForwardRight),
    {
        let s = self.speed;
        self.drive_with(false, true, false, true, s, s / 2);
    }

    pub fn backward_left(&mut self)
        ensures
            *final(self) == old(self).after(CarControl::BackwardLeft),
    {
        let s = self.speed;
        self.drive_with(true, false, true, false, s / 2, s);
    }

    pub fn backward_right(&mut self)
        ensures
            *final(self) == old(self).after(CarControl::BackwardRight),
    {
        let s = self.speed;
        self.drive_with(true, false, true, false, s, s / 2);
    }

    /// Applies one drive request.
    pub fn apply(&mut self, c: CarControl)
        ensures
            *final(self) == old(self).after(c),
    {
        match c {
            CarControl::Stop => self.stop(),
            CarControl::Forward => self.forward(),
            CarControl::Backward => self.backward(),
            CarControl::TurnLeft => self.turn_left(),
            CarControl::TurnRight => self.turn_right(),
            CarControl::ForwardLeft => self.forward_left(),
            CarControl::ForwardRight => self.forward_right(),
            CarControl::BackwardLeft => self.backward_left(),
            CarControl::BackwardRight => self.backward_right(),
            CarControl::SetSpeed(v) => self.set_speed(v),
        }
    }
}

} // verus!
