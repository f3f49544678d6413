//! The player singleton and the progression rule.

use vstd::arithmetic::div_mod::{lemma_basic_div, lemma_div_is_ordered, lemma_fundamental_div_mod_converse};
use vstd::prelude::*;
use crate::grid::{Pos, TILE_SIZE};

verus! {

/// Experience needed for one level-up.
pub const EXP_PER_LEVEL: usize = 50;

/// Per-tick movement and encounter state of the one player of a session.
#[derive(Clone, Copy, Debug, PartialEq, Eq, Structural)]
pub struct Player {
    /// Whether the pipeline accepts input this tick; false while a combat
    /// transition is pending or another scene runs.
    pub active: bool,
    /// Accumulated experience below the next level-up.
    pub exp: usize,
    /// Threshold of danger-exposed steps before a combat transition fires.
    pub max_steps: u32,
    /// Danger-exposed steps taken since the last reset.
    pub step: u32,
}

/// Combat statistics of the player, mutated only by the progression rule.
#[derive(Clone, Copy, Debug, PartialEq, Eq, Structural)]
pub struct CombatStats {
    pub health: u32,
    pub max_health: u32,
    pub attack: u32,
    pub defense: u32,
}

impl Player {
    /// State invariant: outside the single instant of a threshold trigger
    /// (which resets it at once), the step counter never exceeds the
    /// threshold.
    pub open spec fn inv(self) -> bool {
        self.step <= self.max_steps
    }

    /// Progression rule: add `exp` to the accumulated experience, and for
    /// each full `EXP_PER_LEVEL` in the sum apply one fixed upgrade
    /// (`health += 2`, `max_health += 2`, `attack += 1`, `defense += 1`),
    /// keeping only the remainder. Returns whether at least one level-up
    /// occurred. A single large grant may pay for several level-ups.
    pub fn give_exp(&mut self, exp: usize, stats: &mut CombatStats) -> (leveled_up: bool)
        requires
            old(self).exp + exp <= usize::MAX,
            old(stats).health + 2 * ((old(self).exp + exp) / (EXP_PER_LEVEL as int))
                <= u32::MAX,
            old(stats).max_health + 2 * ((old(self).exp + exp) / (EXP_PER_LEVEL as int))
                <= u32::MAX,
            old(stats).attack + (old(self).exp + exp) / (EXP_PER_LEVEL as int) <= u32::MAX,
            old(stats).defense + (old(self).exp + exp) / (EXP_PER_LEVEL as int) <= u32::MAX,
        ensures
            ({
                let total = old(self).exp + exp;
                let levels = total / (EXP_PER_LEVEL as int);
                &&& final(self).exp == total % (EXP_PER_LEVEL as int)
                &&& final(stats).health == old(stats).health + 2 * levels
                &&& final(stats).max_health == old(stats).max_health + 2 * levels
                &&& final(stats).attack == old(stats).attack + levels
                &&& final(stats).defense == old(stats).defense + levels
                &&& leveled_up == (total >= EXP_PER_LEVEL)
            }),
            final(self).active == old(self).active,
            final(self).step == old(self).step,
            final(self).max_steps == old(self).max_steps,
    {
        let ghost total: int = old(self).exp + exp;
        proof {
            lemma_div_is_ordered(0, total, EXP_PER_LEVEL as int);
        }
        self.exp = self.exp + exp;
        let mut leveled_up = false;
        let ghost mut levels_done: int = 0;
        while self.exp >= EXP_PER_LEVEL
            invariant
                0 <= levels_done,
                self.exp + (EXP_PER_LEVEL as int) * levels_done == total,
                stats.health == old(stats).health + 2 * levels_done,
                stats.max_health == old(stats).max_health + 2 * levels_done,
                stats.attack == old(stats).attack + levels_done,
                stats.defense == old(stats).defense + levels_done,
                leveled_up == (levels_done > 0),
                levels_done <= total / (EXP_PER_LEVEL as int),
                old(stats).health + 2 * (total / (EXP_PER_LEVEL as int)) <= u32::MAX,
                old(stats).max_health + 2 * (total / (EXP_PER_LEVEL as int)) <= u32::MAX,
                old(stats).attack + total / (EXP_PER_LEVEL as int) <= u32::MAX,
                old(stats).defense + total / (EXP_PER_LEVEL as int) <= u32::MAX,
                self.active == old(self).active,
                self.step == old(self).step,
                self.max_steps == old(self).max_steps,
            decreases self.exp,
        {
            proof {
                // One more full EXP_PER_LEVEL fits in total, so the level
                // count stays at or below total / EXP_PER_LEVEL.
                lemma_fundamental_div_mod_converse(
                    (EXP_PER_LEVEL as int) * (levels_done + 1),
                    EXP_PER_LEVEL as int,
                    levels_done + 1,
                    0,
                );
                lemma_div_is_ordered(
                    (EXP_PER_LEVEL as int) * (levels_done + 1),
                    total,
                    EXP_PER_LEVEL as int,
                );
            }
            stats.health = stats.health + 2;
            stats.max_health = stats.max_health + 2;
            stats.attack = stats.attack + 1;
            stats.defense = stats.defense + 1;
            self.exp = self.exp - EXP_PER_LEVEL;
            leveled_up = true;
            proof {
                levels_done = levels_done + 1;
            }
        }
        proof {
            lemma_fundamental_div_mod_converse(
                total,
                EXP_PER_LEVEL as int,
                levels_done,
                self.exp as int,
            );
            if total < EXP_PER_LEVEL {
                lemma_basic_div(total, EXP_PER_LEVEL as int);
            } else {
                lemma_div_is_ordered(EXP_PER_LEVEL as int, total, EXP_PER_LEVEL as int);
                assert((EXP_PER_LEVEL as int) / (EXP_PER_LEVEL as int) == 1) by {
                    lemma_fundamental_div_mod_converse(
                        EXP_PER_LEVEL as int,
                        EXP_PER_LEVEL as int,
                        1,
                        0,
                    );
                }
            }
        }
        leveled_up
    }
}

/// Initial per-session state: an active player two tiles right and two tiles
/// below the origin, facing down, with an empty step counter, a threshold of
/// five danger-exposed steps, and the starting combat statistics.
pub fn spawn_player() -> (r: (Player, CombatStats, Pos))
    ensures
        r.0 == (Player { active: true, exp: 0, max_steps: 5, step: 0 }),
        r.1 == (CombatStats { health: 10, max_health: 10, attack: 2, defense: 1 }),
        r.2.x == 2 * TILE_SIZE,
        r.2.y == -2 * TILE_SIZE,
        r.0.inv(),
{
    (
        Player { active: true, exp: 0, max_steps: 5, step: 0 },
        CombatStats { health: 10, max_health: 10, attack: 2, defense: 1 },
        Pos { x: 2 * TILE_SIZE, y: -2 * TILE_SIZE },
    )
}

} // verus!
