use vstd::prelude::*;

verus! {

/// The largest timer period that a pulse channel sounds at.
pub const PERIOD_MAX: u16 = 0x7ff;

/// Glides the pitch of a pulse channel by shifting its timer period.
#[derive(Debug, Clone, Copy, PartialEq, Eq, Structural)]
pub struct Sweep {
    pub enable: bool,
    pub raw_period: u8,
    pub negate: bool,
    pub shift: u8,
    /// How the change is negated: 0 for the first pulse channel (ones'
    /// complement), 1 for the second (two's complement).
    pub negate_mode: u8,
    pub divider: u8,
}

impl Sweep {
    pub open spec fn wf(self) -> bool {
        self.shift <= 7 && self.negate_mode <= 1
    }

    /// The period that the sweep aims at: the period plus the period shifted
    /// right, or minus it when negating, and one less again on the first
    /// pulse channel.
    pub open spec fn target(self, raw_timer_period: u16) -> int {
        let change = (raw_timer_period >> self.shift) as int;
        if !self.negate {
            raw_timer_period + change
        } else if self.negate_mode == 1 {
            raw_timer_period - change
        } else {
            raw_timer_period - change - 1
        }
    }

    /// Whether the sweep silences the channel: the target lies outside
    /// `0..=0x7ff`, or the period is below 8.
    pub open spec fn muted(self, raw_timer_period: u16) -> bool {
        self.target(raw_timer_period) > PERIOD_MAX || self.target(raw_timer_period) < 0
            || raw_timer_period < 8
    }

    /// The sweep and the timer period after a half-frame clock. The divider
    /// counts down; when it was at zero it is reloaded and the period takes
    /// the target, provided the sweep is enabled, shifts at all and does not
    /// mute. A write to the sweep register since the last clock reloads the
    /// divider.
    pub open spec fn ticked(self, reload: bool, timer_period: u16) -> (Sweep, u16) {
        let period = if self.divider == 0 && !self.muted(timer_period) && self.enable
            && self.shift > 0 {
            self.target(timer_period) as u16
        } else {
            timer_period
        };
        let divider = if reload || self.divider == 0 {
            self.raw_period
        } else {
            (self.divider - 1) as u8
        };
        (Sweep { divider, ..self }, period)
    }

    pub fn new(negate_mode: u8) -> (s: Self)
        requires
            negate_mode <= 1,
        ensures
            s == (Sweep {
                enable: false,
                raw_period: 0,
                negate: false,
                shift: 0,
                negate_mode,
                divider: 0,
            }),
            s.wf(),
    {
        Sweep { enable: false, raw_period: 0, negate: false, shift: 0, negate_mode, divider: 0 }
    }

    /// The target period, or `None` where it lies outside `0..=0xffff`.
    pub fn calculate_new_period(&self, raw_timer_period: u16) -> (p: Option<u16>)
        requires
            self.wf(),
        ensures
            p is Some <==> 0 <= self.target(raw_timer_period) <= u16::MAX,
            p matches Some(v) ==> v == self.target(raw_timer_period),
    {
        let change = (raw_timer_period >> self.shift) as i32;
        let target: i32 = if !self.negate {
            raw_timer_period as i32 + change
        } else if self.negate_mode == 1 {
            raw_timer_period as i32 - change
        } else {
            raw_timer_period as i32 - change - 1
        };
        if 0 <= target && target <= 0xffff {
            Some(target as u16)
        } else {
            None
        }
    }

    pub fn is_muted(&self, raw_timer_period: u16) -> (b: bool)
        requires
            self.wf(),
        ensures
            b == self.muted(raw_timer_period),
    {
        match self.calculate_new_period(raw_timer_period) {
            Some(p) => p > PERIOD_MAX || raw_timer_period < 8,
            None => true,
        }
    }

    pub fn tick(&mut self, register_two_write: bool, timer_period: &mut u16)
        requires
            old(self).wf(),
        ensures
            (*final(self), *final(timer_period)) == old(self).ticked(
                register_two_write,
                *old(timer_period),
            ),
            final(self).wf(),
            *old(timer_period) <= PERIOD_MAX ==> *final(timer_period) <= PERIOD_MAX,
    {
        match self.divider.checked_sub(1) {
            Some(n) => self.divider = n,
            None => {
                if !self.is_muted(*timer_period) && self.enable && self.shift > 0 {
                    match self.calculate_new_period(*timer_period) {
                        Some(p) => *timer_period = p,
                        None => {},
                    }
                }
                self.divider = self.raw_period;
            },
        }
        if register_two_write {
            self.divider = self.raw_period;
        }
    }
}

} // verus!
