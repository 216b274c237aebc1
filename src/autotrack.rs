use vstd::prelude::*;

use crate::control::{CarControl, Control, ControlMode};
use crate::dispatch::CENTER_ANGLE;

verus! {

/// A reading below this many centimetres means the way is blocked.
pub const OBSTACLE_CM: u32 = 10;

/// Time the servo is given to reach a scan position, in milliseconds.
pub const SCAN_SETTLE_MS: u64 = 1000;

/// How long a pivot turn is held, in milliseconds.
pub const TURN_HOLD_MS: u64 = 1300;

/// Servo angle of the left scan position.
pub const SCAN_LEFT_ANGLE: u8 = 0;

/// Servo angle of the right scan position.
pub const SCAN_RIGHT_ANGLE: u8 = 180;

/// Where the range sensor is pointed for a measurement.
#[derive(Clone, Copy, Debug, PartialEq, Eq, Structural)]
pub enum Probe {
    Ahead,
    Left,
    Right,
}

/// The next thing the obstacle-avoidance task does.
#[derive(Clone, Copy, Debug, PartialEq, Eq, Structural)]
pub enum NavOp {
    /// Put this intent on the command bus.
    Send(Control),
    /// Wait this many milliseconds.
    Sleep(u64),
    /// Take a range reading in this direction.
    Measure(Probe),
    /// Not authorised: wait for a mode change.
    Park,
}

/// What the task reports back after carrying out a `NavOp`, or a mode change
/// that overtook it.
#[derive(Clone, Copy, Debug, PartialEq, Eq, Structural)]
pub enum NavEvent {
    /// The `Send` or `Sleep` completed.
    Done,
    /// The `Measure` completed with this range, in whole centimetres.
    Distance(u32),
    /// A new mode was published before the current operation completed.
    ModeChanged(ControlMode),
}

/// The obstacle-avoidance task: whether it is authorised, and the operations
/// left in the current pass, in order.
#[derive(Clone, Debug)]
pub struct Navigator {
    pub enabled: bool,
    pub pending: Vec<NavOp>,
}

/// The operations that follow a reading of `cm` centimetres in direction `probe`.
/// A turn ends with its hold; the pass is then over and cruising resumes with a
/// fresh reading ahead.
pub open spec fn plan(probe: Probe, cm: u32) -> Seq<NavOp> {
    let clear = cm >= OBSTACLE_CM;
    match probe {
        Probe::Ahead => if clear {
            seq![NavOp::Send(Control::Car(CarControl::Forward)), NavOp::Send(Control::IdleSetIdle(false))]
        } else {
            seq![
                NavOp::Send(Control::Car(CarControl::Stop)),
                NavOp::Send(Control::ServoSetAngle(SCAN_LEFT_ANGLE)),
                NavOp::Sleep(SCAN_SETTLE_MS),
                NavOp::Measure(Probe::Left),
            ]
        },
        Probe::Left => if clear {
            seq![
                NavOp::Send(Control::Car(CarControl::TurnLeft)),
                NavOp::Send(Control::ServoSetAngle(CENTER_ANGLE)),
                NavOp::Sleep(TURN_HOLD_MS),
            ]
        } else {
            seq![
                NavOp::Send(Control::ServoSetAngle(SCAN_RIGHT_ANGLE)),
                NavOp::Sleep(SCAN_SETTLE_MS),
                NavOp::Measure(Probe::Right),
            ]
        },
        Probe::Right => if clear {
            seq![
                NavOp::Send(Control::Car(CarControl::TurnRight)),
                NavOp::Send(Control::ServoSetAngle(CENTER_ANGLE)),
                NavOp::Sleep(TURN_HOLD_MS),
            ]
        } else {
            seq![NavOp::Send(Control::ControlModeSet(ControlMode::Bluetooth))]
        },
    }
}

/// Blocked ahead, left and right: control goes back to the operator.
pub open spec fn dead_end(probe: Probe, cm: u32) -> bool {
    probe == Probe::Right && cm < OBSTACLE_CM
}

/// An operation that cannot move the vehicle or its servo.
pub open spec fn is_quiet(op: NavOp) -> bool {
    match op {
        NavOp::Send(c) => !c.moves_actuators(),
        NavOp::Sleep(_) => true,
        _ => false,
    }
}

fn plan_ops(probe: Probe, cm: u32) -> (r: Vec<NavOp>)
    ensures
        r@ == plan(probe, cm),
{
    let clear = cm >= OBSTACLE_CM;
    let r = match probe {
        Probe::Ahead => if clear {
            vec![NavOp::Send(Control::Car(CarControl::Forward)), NavOp::Send(Control::IdleSetIdle(false))]
        } else {
            vec![
                NavOp::Send(Control::Car(CarControl::Stop)),
                NavOp::Send(Control::ServoSetAngle(SCAN_LEFT_ANGLE)),
                NavOp::Sleep(SCAN_SETTLE_MS),
                NavOp::Measure(Probe::Left),
            ]
        },
        Probe::Left => if clear {
            vec![
                NavOp::Send(Control::Car(CarControl::TurnLeft)),
                NavOp::Send(Control::ServoSetAngle(CENTER_ANGLE)),
                NavOp::Sleep(TURN_HOLD_MS),
            ]
        } else {
            vec![
                NavOp::Send(Control::ServoSetAngle(SCAN_RIGHT_ANGLE)),
                NavOp::Sleep(SCAN_SETTLE_MS),
                NavOp::Measure(Probe::Right),
            ]
        },
        Probe::Right => if clear {
            vec![
                NavOp::Send(Control::Car(CarControl::TurnRight)),
                NavOp::Send(Control::ServoSetAngle(CENTER_ANGLE)),
                NavOp::Sleep(TURN_HOLD_MS),
            ]
        } else {
            vec![NavOp::Send(Control::ControlModeSet(ControlMode::Bluetooth))]
        },
    };
    proof {
        assert(r@ =~= plan(probe, cm));
    }
    r
}

impl Navigator {
    /// While not authorised, nothing that could move the vehicle is pending.
    pub open spec fn wf(self) -> bool {
        !self.enabled ==> forall|i: int| 0 <= i < self.pending@.len() ==> is_quiet(#[trigger] self.pending@[i])
    }

    /// The operation the task carries out next.
    pub open spec fn upcoming(self) -> NavOp {
        if self.pending@.len() > 0 {
            self.pending@[0]
        } else if self.enabled {
            NavOp::Measure(Probe::Ahead)
        } else {
            NavOp::Park
        }
    }

    /// Whether the task is authorised after `ev`.
    pub open spec fn enabled_after(self, ev: NavEvent) -> bool {
        match ev {
            NavEvent::ModeChanged(m) => m == ControlMode::AutoTrack,
            NavEvent::Distance(cm) => match self.upcoming() {
                NavOp::Measure(p) => self.enabled && !dead_end(p, cm),
                _ => self.enabled,
            },
            NavEvent::Done => self.enabled,
        }
    }

    /// The operations left in the pass after `ev`. A mode change abandons the
    /// pass; an event that does not answer the upcoming operation changes nothing.
    pub open spec fn pending_after(self, ev: NavEvent) -> Seq<NavOp> {
        match ev {
            NavEvent::ModeChanged(_) => Seq::empty(),
            NavEvent::Distance(cm) => match self.upcoming() {
                NavOp::Measure(p) => plan(p, cm),
                _ => self.pending@,
            },
            NavEvent::Done => match self.upcoming() {
                NavOp::Send(_) | NavOp::Sleep(_) => self.pending@.drop_first(),
                _ => self.pending@,
            },
        }
    }

    /// Starts unauthorised: the routine waits for the first mode change.
    pub fn new() -> (r: Navigator)
        ensures
            !r.enabled,
            r.pending@.len() == 0,
            r.wf(),
    {
        Navigator { enabled: false, pending: Vec::new() }
    }

    pub fn next_op(&self) -> (r: NavOp)
        ensures
            r == self.upcoming(),
    {
        if self.pending.len() > 0 {
            self.pending[0]
        } else if self.enabled {
            NavOp::Measure(Probe::Ahead)
        } else {
            NavOp::Park
        }
    }

    /// Advances the task by one event.
    pub fn step(&mut self, ev: NavEvent)
        ensures
            final(self).enabled == old(self).enabled_after(ev),
            final(self).pending@ == old(self).pending_after(ev),
            old(self).wf() ==> final(self).wf(),
    {
        let op = self.next_op();
        match ev {
            NavEvent::ModeChanged(m) => {
                self.enabled = m == ControlMode::AutoTrack;
                self.pending = Vec::new();
            },
            NavEvent::Distance(cm) => {
                if let NavOp::Measure(p) = op {
                    self.pending = plan_ops(p, cm);
                    if p == Probe::Right && cm < OBSTACLE_CM {
                        self.enabled = false;
                    }
                }
            },
            NavEvent::Done => {
                match op {
                    NavOp::Send(_) | NavOp::Sleep(_) => {
                        self.pending.remove(0);
                    },
                    _ => {},
                }
            },
        }
        proof {
            let p = old(self).pending@;
            if ev is Done && (op is Send || op is Sleep) {
                assert(self.pending@ =~= p.drop_first());
            }
            if old(self).wf() && !self.enabled {
                assert forall|i: int| 0 <= i < self.pending@.len() implies is_quiet(#[trigger] self.pending@[i]) by {
                    if ev is Done {
                        assert(self.pending@[i] == p[i + 1]);
                    }
                }
            }
        }
    }
}

/// While the routine is not authorised it never puts a drive or servo intent on
/// the bus, and only a mode change to autonomy authorises it again.
pub proof fn lemma_parked_never_moves(n: Navigator, ev: NavEvent)
    requires
        n.wf(),
        !n.enabled,
    ensures
        n.upcoming() is Park || is_quiet(n.upcoming()),
        ev != NavEvent::ModeChanged(ControlMode::AutoTrack) ==> !n.enabled_after(ev),
        forall|i: int| 0 <= i < n.pending_after(ev).len() ==> is_quiet(#[trigger] n.pending_after(ev)[i]),
{
    if n.pending@.len() > 0 {
        assert(is_quiet(n.pending@[0]));
    }
    if ev is Done && (n.upcoming() is Send || n.upcoming() is Sleep) {
        assert forall|i: int| 0 <= i < n.pending_after(ev).len() implies is_quiet(#[trigger] n.pending_after(ev)[i]) by {
            assert(n.pending_after(ev)[i] == n.pending@[i + 1]);
        }
    }
}

/// A mode change that overtakes a pass abandons it: none of its remaining
/// operations is carried out, and the task starts over from a fresh reading
/// ahead, or parks.
pub proof fn lemma_mode_change_truncates(n: Navigator, m: ControlMode)
    ensures
        n.pending_after(NavEvent::ModeChanged(m)).len() == 0,
        n.enabled_after(NavEvent::ModeChanged(m)) <==> m == ControlMode::AutoTrack,
{
}

} // verus!
