use vstd::prelude::*;

verus! {

/// The player's lowest position: standing on the ground.
pub const GROUND_Y: i64 = -20000;

/// The top of a jump.
pub const TOP_Y: i64 = 15000;

/// How far the player rises or falls in one tick.
pub const JUMP_STEP: i64 = 1250;

/// The player's height when upright.
pub const STANDING_HEIGHT: i64 = 10000;

/// The player's height when ducking.
pub const DUCKING_HEIGHT: i64 = 5000;

/// The player rectangle. Its horizontal footprint is fixed and not stored.
#[derive(Clone, Copy, Debug, PartialEq, Eq, Structural)]
pub struct Player {
    /// Bottom edge of the player.
    pub y: i64,
    pub height: i64,
    /// In the middle of a jump.
    pub airborne: bool,
    /// Still going up; only meaningful while airborne.
    pub rising: bool,
    pub ducking: bool,
}

impl Player {
    /// Between the ground and the top of a jump, on the grid of jump steps,
    /// and either upright or ducking.
    pub open spec fn wf(self) -> bool {
        &&& GROUND_Y <= self.y <= TOP_Y
        &&& (self.y - GROUND_Y) % (JUMP_STEP as int) == 0
        &&& (self.height == STANDING_HEIGHT || self.height == DUCKING_HEIGHT)
    }

    /// Standing still on the ground, upright.
    pub open spec fn at_rest(self) -> bool {
        self == Player {
            y: GROUND_Y,
            height: STANDING_HEIGHT,
            airborne: false,
            rising: false,
            ducking: false,
        }
    }

    /// The player after one tick of vertical motion.
    pub open spec fn moved(self) -> Player {
        let height = if self.ducking { DUCKING_HEIGHT } else { STANDING_HEIGHT };
        if !self.airborne {
            Player { height, ..self }
        } else if self.rising {
            if self.y < TOP_Y {
                Player { y: (self.y + JUMP_STEP) as i64, height, ..self }
            } else {
                Player { rising: false, height, ..self }
            }
        } else if self.y > GROUND_Y {
            Player { y: (self.y - JUMP_STEP) as i64, height, ..self }
        } else {
            Player { airborne: false, height, ..self }
        }
    }

    /// The player after a jump command: nothing changes in mid-air.
    pub open spec fn jumped(self) -> Player {
        if self.airborne {
            self
        } else {
            Player { airborne: true, rising: true, ducking: false, ..self }
        }
    }

    /// The player after a duck command: ducking flips, and a rising jump
    /// turns into a fall.
    pub open spec fn duck_toggled(self) -> Player {
        Player {
            ducking: !self.ducking,
            rising: if self.airborne { false } else { self.rising },
            ..self
        }
    }

    pub fn new() -> (r: Player)
        ensures
            r.at_rest(),
            r.wf(),
    {
        Player {
            y: GROUND_Y,
            height: STANDING_HEIGHT,
            airborne: false,
            rising: false,
            ducking: false,
        }
    }

    /// One tick of vertical motion.
    pub fn update_position(&mut self)
        requires
            old(self).wf(),
        ensures
            *final(self) == old(self).moved(),
            final(self).wf(),
    {
        if self.airborne {
            if self.rising {
                if self.y < TOP_Y {
                    self.y = self.y + JUMP_STEP;
                } else {
                    self.rising = false;
                }
            } else {
                if self.y > GROUND_Y {
                    self.y = self.y - JUMP_STEP;
                } else {
                    self.airborne = false;
                }
            }
        }
        if self.ducking {
            self.height = DUCKING_HEIGHT;
        } else {
            self.height = STANDING_HEIGHT;
        }
    }

    pub fn jump(&mut self)
        ensures
            *final(self) == old(self).jumped(),
    {
        if !self.airborne {
            self.airborne = true;
            self.rising = true;
            self.ducking = false;
        }
    }

    pub fn duck(&mut self)
        ensures
            *final(self) == old(self).duck_toggled(),
    {
        self.ducking = !self.ducking;
        if self.airborne {
            self.rising = false;
        }
    }
}

/// Jumping or ducking keeps the player in its valid range: neither command
/// moves it.
pub proof fn lemma_commands_keep_wf(p: Player)
    requires
        p.wf(),
    ensures
        p.jumped().wf(),
        p.duck_toggled().wf(),
{
}

} // verus!
