use vstd::prelude::*;
use crate::autopilot::{autopilot_choice, autopilot_decide};
use crate::chance::roll;
use crate::collision::{collision, collision_check};
use crate::mode::{mode_after, next_dark_mode, switch_active, SWITCH_FROM_SCORE};
use crate::obstacle::{advance_obstacles, advanced, ordered, Obstacle, SpawnDraw};
use crate::pacing::{compute_wait, wait_micros};
use crate::player::Player;
use crate::store::{le_bytes, le_value, lemma_highscore_round_trip};

verus! {

/// A discrete input command.
#[derive(Clone, Copy, Debug, PartialEq, Eq, Structural)]
pub enum Command {
    Quit,
    DuckToggle,
    Jump,
    SpeedToggle,
    PauseToggle,
    Restart,
    AutopilotToggle,
    ColorSwitchToggle,
}

/// What the loop must do after a command.
#[derive(Clone, Copy, Debug, PartialEq, Eq, Structural)]
pub enum Effect {
    /// Nothing beyond the state change.
    Continue,
    /// Leave the loop.
    Quit,
    /// Store this highscore, read the store back, and hand the value read to
    /// `App::restart`.
    SaveAndReload(u64),
}

/// The whole game state, owned by the loop.
#[derive(Debug)]
pub struct App {
    /// Ticks survived since the last restart.
    pub score: u64,
    /// The best score seen, seeded from the store.
    pub highscore: u64,
    pub player: Player,
    /// Oldest first, which is also nearest first.
    pub obstacles: Vec<Obstacle>,
    /// Speed mode: much shorter waits between ticks.
    pub speedy: bool,
    pub paused: bool,
    pub dead: bool,
    pub autopilot: bool,
    pub dark_mode: bool,
    /// Whether the colors may switch by themselves.
    pub color_switch: bool,
}

/// The state right after a restart with this highscore: the player at rest, no
/// obstacles, no score, every toggle at its initial value.
pub open spec fn is_fresh(a: App, highscore: u64) -> bool {
    &&& a.score == 0
    &&& a.highscore == highscore
    &&& a.player.at_rest()
    &&& a.obstacles@.len() == 0
    &&& !a.speedy
    &&& !a.paused
    &&& !a.dead
    &&& !a.autopilot
    &&& a.dark_mode
    &&& a.color_switch
}

/// A restart takes effect only once the player is dead.
pub open spec fn restarted(before: App, after: App, reloaded: u64) -> bool {
    if before.dead {
        is_fresh(after, reloaded)
    } else {
        after == before
    }
}

/// How one tick changes score and highscore.
pub open spec fn score_step(before: App, after: App) -> bool {
    if before.running() {
        &&& after.score == before.score + 1
        &&& after.highscore == if after.score > before.highscore {
            after.score as int
        } else {
            before.highscore as int
        }
    } else {
        after.score == before.score && after.highscore == before.highscore
    }
}

/// One tick with this draw: nothing while paused or dead; otherwise the
/// autopilot may act, the player moves, the obstacles advance, a hit kills,
/// and the score goes up by one.
pub open spec fn stepped(before: App, after: App, d: SpawnDraw) -> bool {
    if !before.running() {
        after == before
    } else {
        &&& after.player == before.piloted().moved()
        &&& after.obstacles@ == advanced(before.obstacles@, d)
        &&& after.dead == collision(after.player, after.obstacles@)
        &&& score_step(before, after)
        &&& after.speedy == before.speedy
        &&& after.paused == before.paused
        &&& after.autopilot == before.autopilot
        &&& after.dark_mode == before.dark_mode
        &&& after.color_switch == before.color_switch
    }
}

/// The larger of the first state's highscore and every score in the run.
pub open spec fn best_seen(states: Seq<App>) -> int
    decreases states.len(),
{
    if states.len() == 0 {
        0
    } else if states.len() == 1 {
        states[0].highscore as int
    } else {
        let before = best_seen(states.drop_last());
        let s = states.last().score as int;
        if s > before { s } else { before }
    }
}

/// Over any run of ticks that starts with the score not above the highscore,
/// the final highscore is the best of the starting highscore and every score
/// seen along the way.
pub proof fn lemma_highscore_is_best_seen(states: Seq<App>)
    requires
        states.len() >= 1,
        states[0].score <= states[0].highscore,
        forall|i: int| 0 <= i < states.len() - 1 ==> #[trigger] score_step(states[i], states[i + 1]),
    ensures
        states.last().highscore == best_seen(states),
        states.last().score <= states.last().highscore,
    decreases states.len(),
{
    if states.len() > 1 {
        let prev = states.drop_last();
        assert forall|i: int| 0 <= i < prev.len() - 1 implies #[trigger] score_step(
            prev[i],
            prev[i + 1],
        ) by {
            assert(score_step(states[i], states[i + 1]));
        }
        lemma_highscore_is_best_seen(prev);
        let k = states.len() - 2;
        assert(score_step(states[k], states[k + 1]));
        assert(prev.last() == states[k]);
    }
}

/// Restarting a dead game stores the highscore and reads it back before the
/// reset: the highscore comes through unchanged and everything else starts
/// afresh.
pub proof fn lemma_restart_keeps_highscore(before: App, after: App)
    requires
        before.dead,
        restarted(before, after, le_value(le_bytes(before.highscore as nat, 8)) as u64),
    ensures
        before.effect_of(Command::Restart) == Effect::SaveAndReload(before.highscore),
        before.commanded(Command::Restart) == before,
        is_fresh(after, before.highscore),
        after.wf(),
{
    lemma_highscore_round_trip(before.highscore);
}

impl App {
    /// The player is in range, the obstacles are in line order, and the
    /// score does not exceed the highscore.
    pub open spec fn wf(self) -> bool {
        &&& self.player.wf()
        &&& ordered(self.obstacles@)
        &&& self.score <= self.highscore
    }

    /// Neither paused nor dead.
    pub open spec fn running(self) -> bool {
        !self.paused && !self.dead
    }

    /// The player once the autopilot, if on, has acted.
    pub open spec fn piloted(self) -> Player {
        if !self.autopilot {
            self.player
        } else {
            match autopilot_choice(self.player, self.obstacles@) {
                Some(Command::DuckToggle) => self.player.duck_toggled(),
                Some(Command::Jump) => self.player.jumped(),
                _ => self.player,
            }
        }
    }

    /// The state after a command. Quitting and restarting are left to the
    /// loop and `restart`.
    pub open spec fn commanded(self, cmd: Command) -> App {
        match cmd {
            Command::DuckToggle => App { player: self.player.duck_toggled(), ..self },
            Command::Jump => App { player: self.player.jumped(), ..self },
            Command::SpeedToggle => App { speedy: !self.speedy, ..self },
            Command::PauseToggle => App { paused: !self.paused, ..self },
            Command::AutopilotToggle => App { autopilot: !self.autopilot, ..self },
            Command::ColorSwitchToggle => App { color_switch: !self.color_switch, ..self },
            _ => self,
        }
    }

    /// What the loop must do after a command.
    pub open spec fn effect_of(self, cmd: Command) -> Effect {
        match cmd {
            Command::Quit => Effect::Quit,
            Command::Restart => if self.dead {
                Effect::SaveAndReload(self.highscore)
            } else {
                Effect::Continue
            },
            _ => Effect::Continue,
        }
    }

    /// A fresh game with no highscore yet.
    pub fn new() -> (r: App)
        ensures
            is_fresh(r, 0),
            r.wf(),
    {
        App {
            score: 0,
            highscore: 0,
            player: Player::new(),
            obstacles: Vec::new(),
            speedy: false,
            paused: false,
            dead: false,
            autopilot: false,
            dark_mode: true,
            color_switch: true,
        }
    }

    /// How long the loop may wait for input before the next tick, in
    /// microseconds.
    pub fn tick_wait(&self) -> (r: u64)
        ensures
            r == wait_micros(self.score, self.speedy),
    {
        compute_wait(self.score, self.speedy)
    }

    /// Applies the color rule for one roll.
    pub fn apply_mode(&mut self, roll: i64)
        ensures
            *final(self) == (App {
                dark_mode: next_dark_mode(old(self).score, old(self).color_switch, old(self).dark_mode, roll),
                ..*old(self)
            }),
    {
        self.dark_mode = mode_after(self.score, self.color_switch, self.dark_mode, roll);
    }

    /// The color rule, run every tick whatever the lifecycle: past the score
    /// threshold and with switching enabled, a fresh roll may flip the mode.
    pub fn handle_mode(&mut self)
        ensures
            exists|u: i64|
                0 <= u < crate::chance::CHANCE_SCALE && *final(self) == (App {
                    dark_mode: #[trigger] next_dark_mode(
                        old(self).score,
                        old(self).color_switch,
                        old(self).dark_mode,
                        u,
                    ),
                    ..*old(self)
                }),
    {
        if self.score < SWITCH_FROM_SCORE || !self.color_switch {
            assert(!switch_active(self.score, self.color_switch));
            assert(*self == (App {
                dark_mode: next_dark_mode(self.score, self.color_switch, self.dark_mode, 0),
                ..*self
            }));
            return;
        }
        let u = roll();
        self.apply_mode(u);
    }

    /// Applies one input command, and says what the loop must do next.
    pub fn handle_command(&mut self, cmd: Command) -> (r: Effect)
        ensures
            *final(self) == old(self).commanded(cmd),
            r == old(self).effect_of(cmd),
    {
        match cmd {
            Command::Quit => Effect::Quit,
            Command::DuckToggle => {
                self.player.duck();
                Effect::Continue
            },
            Command::Jump => {
                self.player.jump();
                Effect::Continue
            },
            Command::SpeedToggle => {
                self.speedy = !self.speedy;
                Effect::Continue
            },
            Command::PauseToggle => {
                self.paused = !self.paused;
                Effect::Continue
            },
            Command::Restart => {
                if self.dead {
                    Effect::SaveAndReload(self.highscore)
                } else {
                    Effect::Continue
                }
            },
            Command::AutopilotToggle => {
                self.autopilot = !self.autopilot;
                Effect::Continue
            },
            Command::ColorSwitchToggle => {
                self.color_switch = !self.color_switch;
                Effect::Continue
            },
        }
    }

    /// Starts a new game once the player is dead, with the highscore read
    /// back from the store; otherwise does nothing.
    pub fn restart(&mut self, reloaded: u64)
        ensures
            restarted(*old(self), *final(self), reloaded),
            old(self).dead ==> final(self).wf(),
    {
        if self.dead {
            self.score = 0;
            self.highscore = reloaded;
            self.player = Player::new();
            self.obstacles = Vec::new();
            self.speedy = false;
            self.paused = false;
            self.dead = false;
            self.autopilot = false;
            self.dark_mode = true;
            self.color_switch = true;
        }
    }

    /// One tick of the game with the given draw.
    pub fn advance(&mut self, draw: &SpawnDraw)
        requires
            old(self).wf(),
            old(self).running() ==> old(self).score < u64::MAX,
        ensures
            stepped(*old(self), *final(self), *draw),
            score_step(*old(self), *final(self)),
            final(self).wf(),
    {
        if self.paused || self.dead {
            return;
        }
        if self.autopilot {
            match autopilot_decide(&self.player, &self.obstacles) {
                Some(Command::DuckToggle) => self.player.duck(),
                Some(Command::Jump) => self.player.jump(),
                _ => {},
            }
        }
        proof {
            crate::player::lemma_commands_keep_wf(old(self).player);
        }
        self.player.update_position();
        advance_obstacles(&mut self.obstacles, draw);
        if collision_check(&self.player, &self.obstacles) {
            self.dead = true;
        }
        self.score = self.score + 1;
        if self.score > self.highscore {
            self.highscore = self.score;
        }
    }

    /// One tick of the game, with fresh random draws.
    pub fn tick(&mut self)
        requires
            old(self).wf(),
            old(self).running() ==> old(self).score < u64::MAX,
        ensures
            exists|d: SpawnDraw| d.in_range() && #[trigger] stepped(*old(self), *final(self), d),
            score_step(*old(self), *final(self)),
            final(self).wf(),
    {
        let draw = SpawnDraw::draw();
        self.advance(&draw);
    }
}

} // verus!
