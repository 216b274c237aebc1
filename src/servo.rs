use vstd::prelude::*;

verus! {

/// The steering / scan servo on a 50 Hz PWM channel whose full period is
/// `max_duty` counts. Angle 0 points full left, 90 straight ahead, 180 full right.
#[derive(Clone, Copy, Debug, PartialEq, Eq, Structural)]
pub struct Servo {
    pub max_duty: u16,
    pub duty: u16,
    pub enabled: bool,
}

/// The compare value for `angle` degrees: a pulse of 0.5 ms plus 1/90 ms per
/// degree out of the 20 ms period.
pub open spec fn angle_duty(max_duty: u16, angle: u8) -> int {
    max_duty * (angle + 45) / 1800
}

impl Servo {
    /// Whether the servo is being driven to `angle`.
    pub open spec fn points_at(self, angle: u8) -> bool {
        self.enabled && self.duty == angle_duty(self.max_duty, angle)
    }

    pub fn new(max_duty: u16) -> (r: Servo)
        ensures
            r.max_duty == max_duty,
            r.duty == 0,
            !r.enabled,
    {
        Servo { max_duty, duty: 0, enabled: false }
    }

    pub fn set_angle(&mut self, angle: u8)
        ensures
            final(self).max_duty == old(self).max_duty,
            final(self).points_at(angle),
    {
        let m = self.max_duty as u64;
        let a = angle as u64 + 45;
        proof {
            assert(m * a <= 65535 * 300) by (nonlinear_arith)
                requires m <= 65535, a <= 300;
            assert(m * a / 1800 <= 65535 * 300 / 1800) by (nonlinear_arith)
                requires m * a <= 65535 * 300;
        }
        self.duty = (m * a / 1800) as u16;
        self.enabled = true;
    }
}

} // verus!
