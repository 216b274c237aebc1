use vstd::prelude::*;

verus! {

/// A request for the drive motors.
#[derive(Clone, Copy, Debug, PartialEq, Eq, Structural)]
pub enum CarControl {
    Stop,
    Forward,
    Backward,
    TurnLeft,
    TurnRight,
    ForwardLeft,
    ForwardRight,
    BackwardLeft,
    BackwardRight,
    SetSpeed(u8),
}

/// Which producer is currently allowed to command the actuators.
#[derive(Clone, Copy, Debug, PartialEq, Eq, Structural)]
pub enum ControlMode {
    /// The obstacle-avoidance routine drives.
    AutoTrack,
    /// The remote operator drives.
    Bluetooth,
}

/// One intent on the command bus, consumed once by the dispatcher.
#[derive(Clone, Copy, Debug, PartialEq, Eq, Structural)]
pub enum Control {
    Car(CarControl),
    ServoSetAngle(u8),
    IdleSetIdle(bool),
    IdleSetActive(bool),
    ControlModeSet(ControlMode),
}

impl Control {
    /// Intents that move the vehicle or its scan servo.
    pub open spec fn moves_actuators(self) -> bool {
        self is Car || self is ServoSetAngle
    }
}

} // verus!
