use vstd::prelude::*;
use crate::game::Command;
use crate::obstacle::{ordered, Obstacle};
use crate::player::{Player, GROUND_Y};

verus! {

/// Obstacles right of this line are still ahead of the player.
pub const AHEAD_X: i64 = 5000;

/// Obstacles right of this line are too far away to react to yet.
pub const REACT_X: i64 = 45000;

/// The first obstacle, in line order, that is still ahead of the player.
pub open spec fn first_ahead(s: Seq<Obstacle>) -> Option<Obstacle>
    decreases s.len(),
{
    if s.len() == 0 {
        None
    } else if s[0].x > AHEAD_X {
        Some(s[0])
    } else {
        first_ahead(s.drop_first())
    }
}

/// The command the autopilot gives: duck under a nearby flyer unless already
/// ducking, jump over a nearby ground obstacle, otherwise nothing.
pub open spec fn autopilot_choice(p: Player, s: Seq<Obstacle>) -> Option<Command> {
    match first_ahead(s) {
        None => None,
        Some(o) => if o.x > REACT_X {
            None
        } else if o.y_offset > GROUND_Y && !p.ducking {
            Some(Command::DuckToggle)
        } else if o.y_offset == GROUND_Y {
            Some(Command::Jump)
        } else {
            None
        },
    }
}

/// In a line ordered by position, the first obstacle ahead is also the
/// nearest one ahead.
pub proof fn lemma_first_ahead_is_nearest(s: Seq<Obstacle>, i: int)
    requires
        ordered(s),
        0 <= i < s.len(),
        s[i].x > AHEAD_X,
    ensures
        first_ahead(s) is Some,
        first_ahead(s)->0.x <= s[i].x,
    decreases s.len(),
{
    if s[0].x <= AHEAD_X {
        let rest = s.drop_first();
        assert(ordered(rest));
        lemma_first_ahead_is_nearest(rest, i - 1);
    } else if i > 0 {
        assert(s[0].x < s[i].x);
    }
}

/// Picks the autopilot's command for this tick, if any.
pub fn autopilot_decide(player: &Player, obstacles: &Vec<Obstacle>) -> (r: Option<Command>)
    ensures
        r == autopilot_choice(*player, obstacles@),
{
    let mut i: usize = 0;
    assert(obstacles@.skip(0) =~= obstacles@);
    while i < obstacles.len() && obstacles[i].x <= AHEAD_X
        invariant
            i <= obstacles.len(),
            first_ahead(obstacles@) == first_ahead(obstacles@.skip(i as int)),
        decreases obstacles.len() - i,
    {
        assert(obstacles@.skip(i as int).drop_first() =~= obstacles@.skip(i + 1));
        i = i + 1;
    }
    if i == obstacles.len() {
        assert(obstacles@.skip(i as int).len() == 0);
        return None;
    }
    let o = obstacles[i];
    assert(obstacles@.skip(i as int)[0] == o);
    if o.x > REACT_X {
        None
    } else if o.y_offset > GROUND_Y && !player.ducking {
        Some(Command::DuckToggle)
    } else if o.y_offset == GROUND_Y {
        Some(Command::Jump)
    } else {
        None
    }
}

} // verus!
