use vstd::prelude::*;

verus! {

/// The loudest volume, in thousandths.
pub const MAX_VOLUME: u16 = 1000;

/// The volume at the start.
pub const START_VOLUME: u16 = 500;

/// How loud the sound plays, in thousandths, and whether it is muted.
#[derive(Debug, Clone, Copy, PartialEq, Eq, Structural)]
pub struct Volume {
    /// The volume that plays: zero while muted.
    pub level: u16,
    /// If muted, the volume to be used once unmuted; `None` otherwise.
    pub mute_volume: Option<u16>,
}

/// The volume nearest to `v` between silence and `MAX_VOLUME`.
pub open spec fn clamped(v: int) -> u16 {
    if v < 0 {
        0
    } else if v > MAX_VOLUME {
        MAX_VOLUME
    } else {
        v as u16
    }
}

impl Volume {
    pub open spec fn is_muted(self) -> bool {
        self.mute_volume is Some
    }

    /// The volume once it has been told to mute (`mute`) or to unmute.
    /// Muting keeps the level that plays and plays silence; unmuting brings
    /// the kept level back. Muting what is muted and unmuting what is not
    /// change nothing.
    pub open spec fn muted(self, mute: bool) -> Volume {
        match self.mute_volume {
            None => if mute {
                Volume { level: 0, mute_volume: Some(self.level) }
            } else {
                self
            },
            Some(kept) => if mute {
                self
            } else {
                Volume { level: kept, mute_volume: None }
            },
        }
    }

    /// The volume once `dv` has been added to the level that plays.
    pub open spec fn changed(self, dv: i16) -> Volume {
        Volume { level: clamped(self.level + dv), ..self }
    }

    /// Half the loudest volume, not muted.
    pub fn new() -> (v: Self)
        ensures
            v == (Volume { level: START_VOLUME, mute_volume: None }),
    {
        Volume { level: START_VOLUME, mute_volume: None }
    }

    /// Sets the level that plays, at most `MAX_VOLUME`.
    pub fn set_volume(&mut self, v: u16)
        ensures
            *final(self) == (Volume { level: clamped(v as int), ..*old(self) }),
    {
        self.level = if v > MAX_VOLUME {
            MAX_VOLUME
        } else {
            v
        };
    }

    /// Mutes or unmutes, and tells whether the sound was muted before.
    pub fn set_mute(&mut self, mute: bool) -> (was_muted: bool)
        ensures
            was_muted == old(self).is_muted(),
            *final(self) == old(self).muted(mute),
    {
        match self.mute_volume {
            None => {
                if mute {
                    self.mute_volume = Some(self.level);
                    self.level = 0;
                }
                false
            },
            Some(kept) => {
                if !mute {
                    self.level = kept;
                    self.mute_volume = None;
                }
                true
            },
        }
    }

    /// Adds `dv` to the level that plays, which stays between silence and
    /// `MAX_VOLUME`, and returns the new level.
    pub fn change_volume(&mut self, dv: i16) -> (v: u16)
        ensures
            *final(self) == old(self).changed(dv),
            v == final(self).level,
    {
        let sum: i32 = self.level as i32 + dv as i32;
        let v: u16 = if sum < 0 {
            0
        } else if sum > MAX_VOLUME as i32 {
            MAX_VOLUME
        } else {
            sum as u16
        };
        self.level = v;
        v
    }

    pub fn get_volume(&self) -> (v: u16)
        ensures
            v == self.level,
    {
        self.level
    }

    /// Muting and then unmuting brings back the volume as it was, and so
    /// does to mute and to tell it again what it was before.
    pub proof fn lemma_mute_is_undone(self)
        ensures
            !self.is_muted() ==> self.muted(true).muted(false) == self,
            self.muted(true).is_muted(),
            self.muted(true).level == 0 || self.is_muted(),
            self.muted(true).muted(self.is_muted()) == self,
            !self.muted(false).is_muted(),
    {
    }

    /// However the level is changed, it stays between silence and the
    /// loudest volume.
    pub proof fn lemma_level_stays_in_range(self, dv: i16, v: u16)
        ensures
            self.changed(dv).level <= MAX_VOLUME,
            clamped(v as int) <= MAX_VOLUME,
            self.level <= MAX_VOLUME && 0 <= self.level + dv <= MAX_VOLUME ==> self.changed(
                dv,
            ).level == self.level + dv,
    {
    }
}

impl Default for Volume {
    fn default() -> (v: Self)
        ensures
            v == (Volume { level: START_VOLUME, mute_volume: None }),
    {
        Self::new()
    }
}

} // verus!
