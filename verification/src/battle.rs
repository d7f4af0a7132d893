//! A rough-and-ready battle: the character's power against an enemy of
//! random strength.

use crate::character::{Character, SkillType};
use rand::Rng;
use vstd::prelude::*;

verus! {

/// How a battle ended for the character.
#[derive(Debug, Clone, Copy, PartialEq, Eq, Structural, Hash)]
pub enum BattleOutcome {
    Victory,
    NarrowDefeat,
    Defeat,
}

/// A battle that was fought: who had how much, and how it ended.
#[derive(Debug, Clone, Copy, PartialEq, Eq, Structural)]
pub struct BattleReport {
    pub outcome: BattleOutcome,
    pub combat_power: u32,
    pub enemy_power: u32,
}

/// The weakest enemy there is.
pub const ENEMY_BASE_POWER: u32 = 100;

/// By how much an enemy's power varies: from the base up to the base and
/// this, exclusive.
pub const ENEMY_POWER_SPREAD: u32 = 200;

impl BattleOutcome {
    /// How a battle ends: victory with more power than the enemy, a narrow
    /// defeat with more than half the enemy's, rounded down, and defeat
    /// otherwise.
    pub open spec fn of(combat_power: int, enemy_power: int) -> BattleOutcome {
        if combat_power > enemy_power {
            BattleOutcome::Victory
        } else if combat_power > enemy_power / 2 {
            BattleOutcome::NarrowDefeat
        } else {
            BattleOutcome::Defeat
        }
    }

    /// The headline of the outcome.
    pub fn headline(self) -> (r: &'static str)
        ensures
            r@ == match self {
                BattleOutcome::Victory => "Victory!"@,
                BattleOutcome::NarrowDefeat => "Narrow defeat."@,
                BattleOutcome::Defeat => "Defeat."@,
            },
    {
        match self {
            BattleOutcome::Victory => "Victory!",
            BattleOutcome::NarrowDefeat => "Narrow defeat.",
            BattleOutcome::Defeat => "Defeat.",
        }
    }
}

/// Decides a battle between the two powers.
pub fn judge_battle(combat_power: u32, enemy_power: u32) -> (r: BattleReport)
    ensures
        r == (BattleReport {
            outcome: BattleOutcome::of(combat_power as int, enemy_power as int),
            combat_power,
            enemy_power,
        }),
{
    let outcome = if combat_power > enemy_power {
        BattleOutcome::Victory
    } else if combat_power > enemy_power / 2 {
        BattleOutcome::NarrowDefeat
    } else {
        BattleOutcome::Defeat
    };
    BattleReport { outcome, combat_power, enemy_power }
}

/// What the character brings to a fight.
pub fn combat_power(character: &Character) -> (r: u32)
    requires
        character.combat_power() <= u32::MAX,
    ensures
        r == character.combat_power(),
{
    let one_handed = character.skills.level_of(SkillType::OneHanded);
    let two_handed = character.skills.level_of(SkillType::TwoHanded);
    let polearm = character.skills.level_of(SkillType::Polearm);
    let weapon_skill = if one_handed >= two_handed && one_handed >= polearm {
        one_handed
    } else if two_handed >= polearm {
        two_handed
    } else {
        polearm
    };
    let athletics = character.skills.level_of(SkillType::Athletics);
    let tactics = character.skills.level_of(SkillType::Tactics);
    character.attributes.vigor * 5 + character.attributes.endurance * 3 + weapon_skill * 2
        + athletics + tactics
}

/// Draws a number from the thread's generator with
/// `rand::Rng::gen_range(0..bound)`, which gives a value of the half-open
/// range and panics on an empty one. The contract keeps the range
/// non-empty and claims only that the value lies in it.
#[verifier::external_body]
fn roll_below(bound: u32) -> (r: u32)
    requires
        bound > 0,
    ensures
        r < bound,
{
    rand::thread_rng().gen_range(0..bound)
}

/// Fights a battle against an enemy of random strength. The enemy's power
/// is at least the base and less than the base and the spread; whatever it
/// turns out to be, the outcome is the one that the two powers call for.
pub fn simulate_battle(character: &Character) -> (r: BattleReport)
    requires
        character.combat_power() <= u32::MAX,
    ensures
        r.combat_power == character.combat_power(),
        ENEMY_BASE_POWER <= r.enemy_power < ENEMY_BASE_POWER + ENEMY_POWER_SPREAD,
        r.outcome == BattleOutcome::of(r.combat_power as int, r.enemy_power as int),
{
    let power = combat_power(character);
    let enemy_power = ENEMY_BASE_POWER + roll_below(ENEMY_POWER_SPREAD);
    judge_battle(power, enemy_power)
}

} // verus!
