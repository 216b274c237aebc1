use vstd::prelude::*;

use crate::control::{CarControl, Control, ControlMode};

verus! {

/// What one byte of the remote link asks for.
#[derive(Clone, Copy, Debug, PartialEq, Eq, Structural)]
pub enum BluetoothAction {
    Car(CarControl),
    ControlMode(ControlMode),
}

/// The fixed one-byte command table of the remote link; `Err(b)` for a byte
/// outside it.
pub open spec fn decode_spec(b: u8) -> Result<BluetoothAction, u8> {
    if b == 0x30 {
        Ok(BluetoothAction::Car(CarControl::Stop))
    } else if b == 0x31 {
        Ok(BluetoothAction::Car(CarControl::Forward))
    } else if b == 0x32 {
        Ok(BluetoothAction::Car(CarControl::ForwardRight))
    } else if b == 0x33 {
        Ok(BluetoothAction::Car(CarControl::TurnRight))
    } else if b == 0x34 {
        Ok(BluetoothAction::Car(CarControl::BackwardRight))
    } else if b == 0x35 {
        Ok(BluetoothAction::Car(CarControl::Backward))
    } else if b == 0x36 {
        Ok(BluetoothAction::Car(CarControl::BackwardLeft))
    } else if b == 0x37 {
        Ok(BluetoothAction::Car(CarControl::TurnLeft))
    } else if b == 0x38 {
        Ok(BluetoothAction::Car(CarControl::ForwardLeft))
    } else if 0x50 <= b <= 0x58 {
        Ok(BluetoothAction::Car(CarControl::SetSpeed((50 + 5 * (b - 0x50)) as u8)))
    } else if b == 0x40 {
        Ok(BluetoothAction::ControlMode(ControlMode::AutoTrack))
    } else if b == 0x41 {
        Ok(BluetoothAction::ControlMode(ControlMode::Bluetooth))
    } else {
        Err(b)
    }
}

/// Decodes one command byte of the remote link.
pub fn decode(b: u8) -> (r: Result<BluetoothAction, u8>)
    ensures
        r == decode_spec(b),
{
    match b {
        0x30 => Ok(BluetoothAction::Car(CarControl::Stop)),
        0x31 => Ok(BluetoothAction::Car(CarControl::Forward)),
        0x32 => Ok(BluetoothAction::Car(CarControl::ForwardRight)),
        0x33 => Ok(BluetoothAction::Car(CarControl::TurnRight)),
        0x34 => Ok(BluetoothAction::Car(CarControl::BackwardRight)),
        0x35 => Ok(BluetoothAction::Car(CarControl::Backward)),
        0x36 => Ok(BluetoothAction::Car(CarControl::BackwardLeft)),
        0x37 => Ok(BluetoothAction::Car(CarControl::TurnLeft)),
        0x38 => Ok(BluetoothAction::Car(CarControl::ForwardLeft)),
        0x50..=0x58 => Ok(BluetoothAction::Car(CarControl::SetSpeed(50 + (b - 0x50) * 5))),
        0x40 => Ok(BluetoothAction::ControlMode(ControlMode::AutoTrack)),
        0x41 => Ok(BluetoothAction::ControlMode(ControlMode::Bluetooth)),
        _ => Err(b),
    }
}

/// Every byte decodes to exactly one outcome: a known action, or an error
/// carrying the byte itself. The speed bytes 0x50 to 0x58 give 50, 55, ..., 90,
/// and every byte from 0x59 up is rejected.
pub proof fn lemma_decode_total(b: u8)
    ensures
        decode_spec(b) is Ok <==> (0x30 <= b <= 0x38 || 0x50 <= b <= 0x58 || b == 0x40 || b == 0x41),
        decode_spec(b) is Err ==> decode_spec(b) == Err::<BluetoothAction, u8>(b),
        0x50 <= b <= 0x58 ==> decode_spec(b) == Ok::<BluetoothAction, u8>(
            BluetoothAction::Car(CarControl::SetSpeed((50 + 5 * (b - 0x50)) as u8)),
        ),
        b >= 0x59 ==> decode_spec(b) == Err::<BluetoothAction, u8>(b),
{
}

/// The next thing the remote-link task does.
#[derive(Clone, Copy, Debug, PartialEq, Eq, Structural)]
pub enum RemoteOp {
    /// Put this intent on the command bus.
    Send(Control),
    /// Read the next byte from the link.
    Listen,
}

/// What the remote-link task reports back after carrying out a `RemoteOp`, or
/// a mode change that overtook it.
#[derive(Clone, Copy, Debug, PartialEq, Eq, Structural)]
pub enum RemoteEvent {
    /// The `Send` completed.
    Done,
    /// The `Listen` completed with this byte.
    Byte(u8),
    /// A new mode was published before the current operation completed.
    ModeChanged(ControlMode),
}

/// The remote-link task: whether it has sent its start-up request, whether the
/// operator is authorised, and the intents still to be sent for the last byte,
/// in order.
#[derive(Clone, Debug)]
pub struct RemoteLink {
    pub started: bool,
    pub enabled: bool,
    pub pending: Vec<Control>,
}

/// The request the task sends once, before it reads the link: it enables the
/// idle output.
pub open spec fn startup_intent() -> Control {
    Control::IdleSetActive(true)
}

/// The intents that one decoded action produces. Mode requests always pass;
/// drive requests only while authorised, each followed by an idle request that
/// is on exactly for `Stop`.
pub open spec fn intents_for(enabled: bool, a: BluetoothAction) -> Seq<Control> {
    match a {
        BluetoothAction::ControlMode(m) => seq![Control::ControlModeSet(m)],
        BluetoothAction::Car(c) => if enabled {
            seq![Control::Car(c), Control::IdleSetIdle(c == CarControl::Stop)]
        } else {
            Seq::empty()
        },
    }
}

fn intents(enabled: bool, a: BluetoothAction) -> (r: Vec<Control>)
    ensures
        r@ == intents_for(enabled, a),
{
    let r = match a {
        BluetoothAction::ControlMode(m) => vec![Control::ControlModeSet(m)],
        BluetoothAction::Car(c) => if enabled {
            vec![Control::Car(c), Control::IdleSetIdle(c == CarControl::Stop)]
        } else {
            Vec::new()
        },
    };
    proof {
        assert(r@ =~= intents_for(enabled, a));
    }
    r
}

impl RemoteLink {
    /// While not authorised, only mode requests are pending.
    pub open spec fn wf(self) -> bool {
        !self.enabled ==> forall|i: int| 0 <= i < self.pending@.len() ==> (#[trigger] self.pending@[i]) is ControlModeSet
    }

    /// The operation the task carries out next.
    pub open spec fn upcoming(self) -> RemoteOp {
        if !self.started {
            RemoteOp::Send(startup_intent())
        } else if self.pending@.len() > 0 {
            RemoteOp::Send(self.pending@[0])
        } else {
            RemoteOp::Listen
        }
    }

    /// Whether the start-up request has gone out after `ev`. A mode change
    /// does not cancel it: it is sent once, whatever the mode.
    pub open spec fn started_after(self, ev: RemoteEvent) -> bool {
        self.started || ev == RemoteEvent::Done
    }

    /// Whether the operator is authorised after `ev`.
    pub open spec fn enabled_after(self, ev: RemoteEvent) -> bool {
        match ev {
            RemoteEvent::ModeChanged(m) => m == ControlMode::Bluetooth,
            _ => self.enabled,
        }
    }

    /// The intents left to send after `ev`. A mode change abandons them; an
    /// event that does not answer the upcoming operation changes nothing.
    pub open spec fn pending_after(self, ev: RemoteEvent) -> Seq<Control> {
        match ev {
            RemoteEvent::ModeChanged(_) => Seq::empty(),
            RemoteEvent::Byte(b) => if self.upcoming() is Listen {
                match decode_spec(b) {
                    Ok(a) => intents_for(self.enabled, a),
                    Err(_) => self.pending@,
                }
            } else {
                self.pending@
            },
            RemoteEvent::Done => if self.started && self.pending@.len() > 0 {
                self.pending@.drop_first()
            } else {
                self.pending@
            },
        }
    }

    /// The byte that `ev` delivers and the command table rejects, if any.
    pub open spec fn rejected_by(self, ev: RemoteEvent) -> Option<u8> {
        match ev {
            RemoteEvent::Byte(b) => if self.upcoming() is Listen && decode_spec(b) is Err {
                Some(b)
            } else {
                None
            },
            _ => None,
        }
    }

    /// Starts authorised, with the start-up request still to send.
    pub fn new() -> (r: RemoteLink)
        ensures
            !r.started,
            r.enabled,
            r.pending@.len() == 0,
            r.wf(),
    {
        RemoteLink { started: false, enabled: true, pending: Vec::new() }
    }

    pub fn next_op(&self) -> (r: RemoteOp)
        ensures
            r == self.upcoming(),
    {
        if !self.started {
            RemoteOp::Send(Control::IdleSetActive(true))
        } else if self.pending.len() > 0 {
            RemoteOp::Send(self.pending[0])
        } else {
            RemoteOp::Listen
        }
    }

    /// Advances the task by one event; hands back a byte that the command
    /// table rejected, for the caller to report.
    pub fn step(&mut self, ev: RemoteEvent) -> (rejected: Option<u8>)
        ensures
            final(self).started == old(self).started_after(ev),
            final(self).enabled == old(self).enabled_after(ev),
            final(self).pending@ == old(self).pending_after(ev),
            rejected == old(self).rejected_by(ev),
            old(self).wf() ==> final(self).wf(),
    {
        let listening = self.started && self.pending.len() == 0;
        let mut rejected: Option<u8> = None;
        match ev {
            RemoteEvent::ModeChanged(m) => {
                self.enabled = m == ControlMode::Bluetooth;
                self.pending = Vec::new();
            },
            RemoteEvent::Byte(b) => {
                if listening {
                    match decode(b) {
                        Ok(a) => {
                            self.pending = intents(self.enabled, a);
                        },
                        Err(e) => {
                            rejected = Some(e);
                        },
                    }
                }
            },
            RemoteEvent::Done => {
                if !self.started {
                    self.started = true;
                } else if self.pending.len() > 0 {
                    self.pending.remove(0);
                }
            },
        }
        proof {
            let p = old(self).pending@;
            if ev is Done && old(self).started && p.len() > 0 {
                assert(self.pending@ =~= p.drop_first());
            }
            if old(self).wf() && !self.enabled {
                assert forall|i: int| 0 <= i < self.pending@.len() implies (#[trigger] self.pending@[i]) is ControlModeSet by {
                    if ev is Done && old(self).started {
                        assert(self.pending@[i] == p[i + 1]);
                    }
                }
            }
        }
        rejected
    }
}

/// While the operator is not authorised, the remote link puts nothing on the
/// bus but mode requests and its one start-up request: every other byte is
/// dropped. Only a mode change to remote control authorises it again.
pub proof fn lemma_unauthorised_link_only_sends_modes(r: RemoteLink, ev: RemoteEvent)
    requires
        r.wf(),
        !r.enabled,
    ensures
        match r.upcoming() {
            RemoteOp::Send(c) => c is ControlModeSet || (!r.started && c == startup_intent()),
            RemoteOp::Listen => true,
        },
        forall|i: int| 0 <= i < r.pending_after(ev).len() ==> (#[trigger] r.pending_after(ev)[i]) is ControlModeSet,
        ev != RemoteEvent::ModeChanged(ControlMode::Bluetooth) ==> !r.enabled_after(ev),
{
    if r.pending@.len() > 0 {
        assert(r.pending@[0] is ControlModeSet);
    }
    if ev is Done && r.started && r.pending@.len() > 0 {
        assert forall|i: int| 0 <= i < r.pending_after(ev).len() implies (#[trigger] r.pending_after(ev)[i]) is ControlModeSet by {
            assert(r.pending_after(ev)[i] == r.pending@[i + 1]);
        }
    }
}

/// A mode change that overtakes the sending of a byte's intents abandons the
/// ones not yet sent; the start-up request, if still due, is kept.
pub proof fn lemma_link_mode_change_truncates(r: RemoteLink, m: ControlMode)
    ensures
        r.pending_after(RemoteEvent::ModeChanged(m)).len() == 0,
        r.started_after(RemoteEvent::ModeChanged(m)) == r.started,
        r.enabled_after(RemoteEvent::ModeChanged(m)) <==> m == ControlMode::Bluetooth,
{
}

} // verus!
