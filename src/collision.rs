use vstd::prelude::*;
use crate::obstacle::Obstacle;
use crate::player::Player;

verus! {

/// The player's fixed horizontal footprint is `(-FOOTPRINT_HALF, FOOTPRINT_HALF)`.
pub const FOOTPRINT_HALF: i64 = 5000;

/// The obstacle is inside the player's footprint.
pub open spec fn in_footprint(o: Obstacle) -> bool {
    -FOOTPRINT_HALF < o.x < FOOTPRINT_HALF
}

/// The player's bottom edge lies within the obstacle's band, or its top edge
/// lies within the widened band below and above the obstacle.
pub open spec fn overlaps_vertically(p: Player, o: Obstacle) -> bool {
    (p.y >= o.y_offset && p.y <= o.y_offset + o.extent) || (p.y + p.height >= o.y_offset
        - o.extent && p.y + p.height <= o.y_offset + o.extent)
}

/// The player hits this obstacle.
pub open spec fn hits(p: Player, o: Obstacle) -> bool {
    in_footprint(o) && overlaps_vertically(p, o)
}

/// The player hits some obstacle.
pub open spec fn collision(p: Player, s: Seq<Obstacle>) -> bool {
    exists|i: int| 0 <= i < s.len() && hits(p, s[i])
}

/// Whether the player hits any of the obstacles.
pub fn collision_check(player: &Player, obstacles: &Vec<Obstacle>) -> (r: bool)
    ensures
        r == collision(*player, obstacles@),
{
    let bottom = player.y as i128;
    let top = bottom + player.height as i128;
    let mut i: usize = 0;
    while i < obstacles.len()
        invariant
            i <= obstacles.len(),
            bottom == player.y,
            top == player.y + player.height,
            forall|j: int| 0 <= j < i ==> !hits(*player, #[trigger] obstacles@[j]),
        decreases obstacles.len() - i,
    {
        let o = obstacles[i];
        if o.x < FOOTPRINT_HALF && o.x > -FOOTPRINT_HALF {
            let low = o.y_offset as i128;
            let ext = o.extent as i128;
            if (bottom >= low && bottom <= low + ext) || (top >= low - ext && top <= low + ext) {
                return true;
            }
        }
        i = i + 1;
    }
    false
}

/// Obstacles outside the player's footprint never collide, wherever the
/// player is.
pub proof fn lemma_no_collision_outside_footprint(p: Player, s: Seq<Obstacle>)
    requires
        forall|i: int| 0 <= i < s.len() ==> s[i].x <= -FOOTPRINT_HALF || s[i].x >= FOOTPRINT_HALF,
    ensures
        !collision(p, s),
{
}

} // verus!
