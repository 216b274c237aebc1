use vstd::prelude::*;

verus! {

/// The power-save output: `level` is what the pin drives (high means idle), and
/// `enable` gates whether idle requests reach the pin at all.
#[derive(Clone, Copy, Debug, PartialEq, Eq, Structural)]
pub struct Idle {
    pub level: bool,
    pub enable: bool,
}

impl Idle {
    pub fn new() -> (r: Idle)
        ensures
            r.level && r.enable,
    {
        Idle { level: true, enable: true }
    }

    /// Drives the output to `idle`, but only while the output is enabled.
    pub fn set_idle(&mut self, idle: bool)
        ensures
            final(self).enable == old(self).enable,
            final(self).level == if old(self).enable { idle } else { old(self).level },
    {
        if self.enable {
            self.level = idle;
        }
    }

    /// Enables or disables the output. The pin level is set to the new setting
    /// itself, not to the last idle request: enabling turns the output on and
    /// disabling turns it off. This is deliberate: the remote link enables the
    /// output once at start-up, when the output is already on, and nothing
    /// disables it, so there is no earlier idle request to restore.
    pub fn set_enable(&mut self, enable: bool)
        ensures
            final(self).enable == enable,
            final(self).level == enable,
    {
        self.enable = enable;
        self.level = enable;
    }
}

} // verus!
