//! Stat calculation: battle stats derived from base stats, individual and
//! effort values, nature, and level, plus the in-battle stage multipliers.

use vstd::prelude::*;

verus! {

/// Names of the stats a battle can modify.
#[derive(Debug, Clone, Copy, PartialEq, Eq, Hash, Structural)]
pub enum StatName {
    Attack,
    Defense,
    SpecialAttack,
    SpecialDefense,
    Speed,
    Accuracy,
    Evasion,
}

/// One value per core stat.
#[derive(Debug, Clone, Copy, PartialEq, Eq, Default)]
pub struct StatSet<T> {
    pub hp: T,
    pub attack: T,
    pub defense: T,
    pub special_attack: T,
    pub special_defense: T,
    pub speed: T,
}

pub type BaseStats = StatSet<u32>;

pub type CalculatedStats = StatSet<u32>;

/// Largest base stat the calculator accepts; keeps every intermediate
/// product of the stat formula inside `u32`.
pub const MAX_BASE_STAT: u32 = 20000000;

/// An exact rational multiplier, applied as `value * num / den` (floored).
#[derive(Debug, Clone, Copy, PartialEq, Eq, Structural)]
pub struct StatMultiplier {
    pub num: u32,
    pub den: u32,
}

/// The temporary in-battle stage modifiers, each in [-6, 6].
#[derive(Debug, Clone, Copy, PartialEq, Eq)]
pub struct BattleStatModifiers {
    pub battle_stats: StatSet<i8>,
    pub accuracy: i8,
    pub evasion: i8,
}

impl Default for BattleStatModifiers {
    /// All stages at zero.
    fn default() -> (m: BattleStatModifiers)
        ensures
            m == BattleStatModifiers::spec_default(),
    {
        BattleStatModifiers {
            battle_stats: StatSet {
                hp: 0,
                attack: 0,
                defense: 0,
                special_attack: 0,
                special_defense: 0,
                speed: 0,
            },
            accuracy: 0,
            evasion: 0,
        }
    }
}

impl BattleStatModifiers {
    /// All stages at zero.
    pub open spec fn spec_default() -> BattleStatModifiers {
        BattleStatModifiers {
            battle_stats: StatSet {
                hp: 0i8,
                attack: 0i8,
                defense: 0i8,
                special_attack: 0i8,
                special_defense: 0i8,
                speed: 0i8,
            },
            accuracy: 0i8,
            evasion: 0i8,
        }
    }

    /// All seven stages lie in [-6, 6].
    pub open spec fn wf(&self) -> bool {
        &&& -6 <= self.battle_stats.attack <= 6
        &&& -6 <= self.battle_stats.defense <= 6
        &&& -6 <= self.battle_stats.special_attack <= 6
        &&& -6 <= self.battle_stats.special_defense <= 6
        &&& -6 <= self.battle_stats.speed <= 6
        &&& -6 <= self.accuracy <= 6
        &&& -6 <= self.evasion <= 6
    }

    /// The stage currently stored for `stat_name`.
    pub open spec fn spec_stage(&self, stat_name: StatName) -> i8 {
        match stat_name {
            StatName::Attack => self.battle_stats.attack,
            StatName::Defense => self.battle_stats.defense,
            StatName::SpecialAttack => self.battle_stats.special_attack,
            StatName::SpecialDefense => self.battle_stats.special_defense,
            StatName::Speed => self.battle_stats.speed,
            StatName::Accuracy => self.accuracy,
            StatName::Evasion => self.evasion,
        }
    }

    pub fn stage(&self, stat_name: StatName) -> (s: i8)
        ensures
            s == self.spec_stage(stat_name),
    {
        match stat_name {
            StatName::Attack => self.battle_stats.attack,
            StatName::Defense => self.battle_stats.defense,
            StatName::SpecialAttack => self.battle_stats.special_attack,
            StatName::SpecialDefense => self.battle_stats.special_defense,
            StatName::Speed => self.battle_stats.speed,
            StatName::Accuracy => self.accuracy,
            StatName::Evasion => self.evasion,
        }
    }

    /// The stage multiplier: main stats use (2+stage)/2 when the stage is
    /// non-negative and 2/(2-stage) otherwise; accuracy and evasion use 3
    /// in place of 2.
    pub fn get_multiplier(&self, stat_name: StatName) -> (m: StatMultiplier)
        ensures
            m == spec_stage_multiplier(self.spec_stage(stat_name), stat_name),
            m.den >= 1,
    {
        let stage: i8 = self.stage(stat_name);
        let base: i32 = match stat_name {
            StatName::Accuracy => 3,
            StatName::Evasion => 3,
            _ => 2,
        };
        if stage >= 0 {
            StatMultiplier { num: (base + stage as i32) as u32, den: base as u32 }
        } else {
            StatMultiplier { num: base as u32, den: (base - stage as i32) as u32 }
        }
    }
}

/// The stage multiplier as an exact rational.
pub open spec fn spec_stage_multiplier(stage: i8, stat_name: StatName) -> StatMultiplier {
    let base: int = match stat_name {
        StatName::Accuracy => 3,
        StatName::Evasion => 3,
        _ => 2,
    };
    if stage >= 0 {
        StatMultiplier { num: (base + stage) as u32, den: base as u32 }
    } else {
        StatMultiplier { num: base as u32, den: (base - stage) as u32 }
    }
}

/// The 25 natures.
#[derive(Debug, Clone, Copy, PartialEq, Eq, Hash, Structural)]
pub enum Nature {
    Hardy,
    Lonely,
    Brave,
    Adamant,
    Naughty,
    Bold,
    Docile,
    Relaxed,
    Impish,
    Lax,
    Timid,
    Hasty,
    Serious,
    Jolly,
    Naive,
    Modest,
    Mild,
    Quiet,
    Bashful,
    Rash,
    Calm,
    Gentle,
    Sassy,
    Careful,
    Quirky,
}

/// Which stats a nature raises and lowers.
#[derive(Debug, Clone, Copy, PartialEq, Eq, Structural)]
pub struct NatureEffect {
    pub increased_stat: Option<StatName>,
    pub decreased_stat: Option<StatName>,
}

/// The effect table of the natures, as the engine applies it.
pub open spec fn spec_nature_effects(nature: Nature) -> NatureEffect {
    match nature {
        Nature::Adamant => NatureEffect {
            increased_stat: Some(StatName::Attack),
            decreased_stat: Some(StatName::SpecialAttack),
        },
        Nature::Lonely => NatureEffect {
            increased_stat: Some(StatName::Attack),
            decreased_stat: Some(StatName::Defense),
        },
        Nature::Brave => NatureEffect {
            increased_stat: Some(StatName::Attack),
            decreased_stat: Some(StatName::Speed),
        },
        Nature::Naughty => NatureEffect {
            increased_stat: Some(StatName::Attack),
            decreased_stat: Some(StatName::SpecialDefense),
        },
        Nature::Bold => NatureEffect {
            increased_stat: Some(StatName::Defense),
            decreased_stat: Some(StatName::Attack),
        },
        Nature::Modest => NatureEffect {
            increased_stat: Some(StatName::SpecialAttack),
            decreased_stat: Some(StatName::Attack),
        },
        Nature::Calm => NatureEffect {
            increased_stat: Some(StatName::SpecialDefense),
            decreased_stat: Some(StatName::SpecialAttack),
        },
        Nature::Hasty => NatureEffect {
            increased_stat: Some(StatName::Speed),
            decreased_stat: Some(StatName::Attack),
        },
        Nature::Relaxed => NatureEffect {
            increased_stat: Some(StatName::Defense),
            decreased_stat: Some(StatName::SpecialDefense),
        },
        Nature::Impish => NatureEffect {
            increased_stat: Some(StatName::SpecialDefense),
            decreased_stat: Some(StatName::SpecialAttack),
        },
        Nature::Lax => NatureEffect {
            increased_stat: Some(StatName::SpecialDefense),
            decreased_stat: Some(StatName::Defense),
        },
        Nature::Timid => NatureEffect {
            increased_stat: Some(StatName::Speed),
            decreased_stat: Some(StatName::Attack),
        },
        Nature::Jolly => NatureEffect {
            increased_stat: Some(StatName::Speed),
            decreased_stat: Some(StatName::SpecialAttack),
        },
        Nature::Naive => NatureEffect {
            increased_stat: Some(StatName::Speed),
            decreased_stat: Some(StatName::SpecialDefense),
        },
        Nature::Mild => NatureEffect {
            increased_stat: Some(StatName::SpecialDefense),
            decreased_stat: Some(StatName::Attack),
        },
        Nature::Quiet => NatureEffect {
            increased_stat: Some(StatName::Speed),
            decreased_stat: Some(StatName::SpecialAttack),
        },
        Nature::Rash => NatureEffect {
            increased_stat: Some(StatName::SpecialDefense),
            decreased_stat: Some(StatName::SpecialAttack),
        },
        Nature::Gentle => NatureEffect {
            increased_stat: Some(StatName::SpecialDefense),
            decreased_stat: Some(StatName::Speed),
        },
        Nature::Sassy => NatureEffect {
            increased_stat: Some(StatName::Speed),
            decreased_stat: Some(StatName::SpecialDefense),
        },
        Nature::Careful => NatureEffect {
            increased_stat: Some(StatName::SpecialDefense),
            decreased_stat: Some(StatName::Speed),
        },
        _ => NatureEffect { increased_stat: None, decreased_stat: None },
    }
}

impl Nature {
    /// True of the five natures that change no stat.
    pub open spec fn spec_is_neutral(&self) -> bool {
        matches!(
            self,
            Nature::Hardy | Nature::Docile | Nature::Serious | Nature::Bashful | Nature::Quirky
        )
    }

    /// Checks if this is a neutral nature (no stat changes).
    pub fn is_neutral(&self) -> (r: bool)
        ensures
            r == self.spec_is_neutral(),
    {
        matches!(
            self,
            Nature::Hardy | Nature::Docile | Nature::Serious | Nature::Bashful | Nature::Quirky
        )
    }

    /// Returns which stats are increased/decreased by this nature.
    pub fn get_effects(&self) -> (e: NatureEffect)
        ensures
            e == spec_nature_effects(*self),
            self.spec_is_neutral() ==> e.increased_stat is None && e.decreased_stat is None,
    {
        match self {
            Nature::Adamant => NatureEffect {
                increased_stat: Some(StatName::Attack),
                decreased_stat: Some(StatName::SpecialAttack),
            },
            Nature::Lonely => NatureEffect {
                increased_stat: Some(StatName::Attack),
                decreased_stat: Some(StatName::Defense),
            },
            Nature::Brave => NatureEffect {
                increased_stat: Some(StatName::Attack),
                decreased_stat: Some(StatName::Speed),
            },
            Nature::Naughty => NatureEffect {
                increased_stat: Some(StatName::Attack),
                decreased_stat: Some(StatName::SpecialDefense),
            },
            Nature::Bold => NatureEffect {
                increased_stat: Some(StatName::Defense),
                decreased_stat: Some(StatName::Attack),
            },
            Nature::Modest => NatureEffect {
                increased_stat: Some(StatName::SpecialAttack),
                decreased_stat: Some(StatName::Attack),
            },
            Nature::Calm => NatureEffect {
                increased_stat: Some(StatName::SpecialDefense),
                decreased_stat: Some(StatName::SpecialAttack),
            },
            Nature::Hasty => NatureEffect {
                increased_stat: Some(StatName::Speed),
                decreased_stat: Some(StatName::Attack),
            },
            Nature::Relaxed => NatureEffect {
                increased_stat: Some(StatName::Defense),
                decreased_stat: Some(StatName::SpecialDefense),
            },
            Nature::Impish => NatureEffect {
                increased_stat: Some(StatName::SpecialDefense),
                decreased_stat: Some(StatName::SpecialAttack),
            },
            Nature::Lax => NatureEffect {
                increased_stat: Some(StatName::SpecialDefense),
                decreased_stat: Some(StatName::Defense),
            },
            Nature::Timid => NatureEffect {
                increased_stat: Some(StatName::Speed),
                decreased_stat: Some(StatName::Attack),
            },
            Nature::Jolly => NatureEffect {
                increased_stat: Some(StatName::Speed),
                decreased_stat: Some(StatName::SpecialAttack),
            },
            Nature::Naive => NatureEffect {
                increased_stat: Some(StatName::Speed),
                decreased_stat: Some(StatName::SpecialDefense),
            },
            Nature::Mild => NatureEffect {
                increased_stat: Some(StatName::SpecialDefense),
                decreased_stat: Some(StatName::Attack),
            },
            Nature::Quiet => NatureEffect {
                increased_stat: Some(StatName::Speed),
                decreased_stat: Some(StatName::SpecialAttack),
            },
            Nature::Rash => NatureEffect {
                increased_stat: Some(StatName::SpecialDefense),
                decreased_stat: Some(StatName::SpecialAttack),
            },
            Nature::Gentle => NatureEffect {
                increased_stat: Some(StatName::SpecialDefense),
                decreased_stat: Some(StatName::Speed),
            },
            Nature::Sassy => NatureEffect {
                increased_stat: Some(StatName::Speed),
                decreased_stat: Some(StatName::SpecialDefense),
            },
            Nature::Careful => NatureEffect {
                increased_stat: Some(StatName::SpecialDefense),
                decreased_stat: Some(StatName::Speed),
            },
            _ => NatureEffect { increased_stat: None, decreased_stat: None },
        }
    }

    /// The nature multiplier for one stat: 11/10 if the nature raises it,
    /// 9/10 if it lowers it, 1 otherwise.
    pub fn get_multiplier(&self, stat: StatName) -> (m: StatMultiplier)
        ensures
            m == spec_nature_multiplier(*self, stat),
            m.num <= 11,
            1 <= m.den <= 10,
            m.num * 10 >= m.den * 9,
    {
        let effect = self.get_effects();
        match (effect.increased_stat, effect.decreased_stat) {
            (Some(increased), _) if increased == stat => StatMultiplier { num: 11, den: 10 },
            (_, Some(decreased)) if decreased == stat => StatMultiplier { num: 9, den: 10 },
            _ => StatMultiplier { num: 1, den: 1 },
        }
    }
}

/// The nature multiplier as an exact rational.
pub open spec fn spec_nature_multiplier(nature: Nature, stat: StatName) -> StatMultiplier {
    let effect = spec_nature_effects(nature);
    if effect.increased_stat == Some(stat) {
        StatMultiplier { num: 11, den: 10 }
    } else if effect.decreased_stat == Some(stat) {
        StatMultiplier { num: 9, den: 10 }
    } else {
        StatMultiplier { num: 1, den: 1 }
    }
}

/// HP = floor((2*base + iv + ev/4) * level / 100) + level + 10.
pub open spec fn spec_hp_stat(base: u32, iv: u8, ev: u16, level: u32) -> int {
    (2 * base + iv + ev / 4) * level / 100 + level + 10
}

/// A non-HP stat before the nature multiplier:
/// floor((2*base + iv + ev/4) * level / 100) + 5.
pub open spec fn spec_raw_stat(base: u32, iv: u8, ev: u16, level: u32) -> int {
    (2 * base + iv + ev / 4) * level / 100 + 5
}

/// A non-HP stat: the raw stat times the nature multiplier, floored.
pub open spec fn spec_nature_stat(
    base: u32,
    iv: u8,
    ev: u16,
    level: u32,
    nature: Nature,
    stat: StatName,
) -> int {
    let m = spec_nature_multiplier(nature, stat);
    spec_raw_stat(base, iv, ev, level) * m.num / (m.den as int)
}

/// The whole calculated stat block, as the formulas give it.
pub open spec fn spec_calculated_stats(
    base_stats: BaseStats,
    level: u32,
    ivs: StatSet<u8>,
    evs: StatSet<u16>,
    nature: Nature,
) -> CalculatedStats {
    CalculatedStats {
        hp: spec_hp_stat(base_stats.hp, ivs.hp, evs.hp, level) as u32,
        attack: spec_nature_stat(
            base_stats.attack,
            ivs.attack,
            evs.attack,
            level,
            nature,
            StatName::Attack,
        ) as u32,
        defense: spec_nature_stat(
            base_stats.defense,
            ivs.defense,
            evs.defense,
            level,
            nature,
            StatName::Defense,
        ) as u32,
        special_attack: spec_nature_stat(
            base_stats.special_attack,
            ivs.special_attack,
            evs.special_attack,
            level,
            nature,
            StatName::SpecialAttack,
        ) as u32,
        special_defense: spec_nature_stat(
            base_stats.special_defense,
            ivs.special_defense,
            evs.special_defense,
            level,
            nature,
            StatName::SpecialDefense,
        ) as u32,
        speed: spec_nature_stat(
            base_stats.speed,
            ivs.speed,
            evs.speed,
            level,
            nature,
            StatName::Speed,
        ) as u32,
    }
}

/// One non-HP battle stat from base stat, IV, EV, level and nature multiplier.
pub fn calculate_stat(
    base: u32,
    iv: u8,
    ev: u16,
    level: u32,
    nature_multiplier: StatMultiplier,
) -> (s: u32)
    requires
        base <= MAX_BASE_STAT,
        1 <= level <= 100,
        nature_multiplier.num <= 11,
        1 <= nature_multiplier.den <= 10,
        nature_multiplier.num * 10 >= nature_multiplier.den * 9,
    ensures
        s == spec_raw_stat(base, iv, ev, level) * nature_multiplier.num / (
        nature_multiplier.den as int),
        s >= 1,
{
    let pre: u32 = 2 * base + iv as u32 + (ev as u32 / 4);
    proof {
        assert(pre * level <= 40016638 * 100) by (nonlinear_arith)
            requires
                pre <= 40016638,
                level <= 100,
        ;
    }
    let base_calc: u32 = (pre * level) / 100 + 5;
    proof {
        assert(base_calc * nature_multiplier.num <= 40016643 * 11) by (nonlinear_arith)
            requires
                base_calc <= 40016643,
                nature_multiplier.num <= 11,
        ;
    }
    proof {
        assert((base_calc as int) * (nature_multiplier.num as int) / (nature_multiplier.den as int)
            >= 1) by (nonlinear_arith)
            requires
                base_calc >= 5,
                nature_multiplier.num * 10 >= nature_multiplier.den * 9,
                1 <= nature_multiplier.den <= 10,
        ;
    }
    (base_calc * nature_multiplier.num) / nature_multiplier.den
}

/// Derives the full battle stat block from base stats, level, IVs, EVs and
/// nature, by the standard formulas (HP has its own; the others are floored
/// after the nature multiplier).
pub fn calculate_stats(
    base_stats: &BaseStats,
    level: u32,
    ivs: &StatSet<u8>,
    evs: &StatSet<u16>,
    nature: &Nature,
) -> (stats: CalculatedStats)
    requires
        1 <= level <= 100,
        base_stats.hp <= MAX_BASE_STAT,
        base_stats.attack <= MAX_BASE_STAT,
        base_stats.defense <= MAX_BASE_STAT,
        base_stats.special_attack <= MAX_BASE_STAT,
        base_stats.special_defense <= MAX_BASE_STAT,
        base_stats.speed <= MAX_BASE_STAT,
    ensures
        stats.hp == spec_hp_stat(base_stats.hp, ivs.hp, evs.hp, level),
        stats.attack == spec_nature_stat(
            base_stats.attack,
            ivs.attack,
            evs.attack,
            level,
            *nature,
            StatName::Attack,
        ),
        stats.defense == spec_nature_stat(
            base_stats.defense,
            ivs.defense,
            evs.defense,
            level,
            *nature,
            StatName::Defense,
        ),
        stats.special_attack == spec_nature_stat(
            base_stats.special_attack,
            ivs.special_attack,
            evs.special_attack,
            level,
            *nature,
            StatName::SpecialAttack,
        ),
        stats.special_defense == spec_nature_stat(
            base_stats.special_defense,
            ivs.special_defense,
            evs.special_defense,
            level,
            *nature,
            StatName::SpecialDefense,
        ),
        stats.speed == spec_nature_stat(
            base_stats.speed,
            ivs.speed,
            evs.speed,
            level,
            *nature,
            StatName::Speed,
        ),
        stats.hp >= level + 10,
        stats == spec_calculated_stats(*base_stats, level, *ivs, *evs, *nature),
        stats.attack >= 1,
        stats.defense >= 1,
        stats.special_attack >= 1,
        stats.special_defense >= 1,
        stats.speed >= 1,
{
    let hp_pre: u32 = 2 * base_stats.hp + ivs.hp as u32 + (evs.hp as u32 / 4);
    proof {
        assert(hp_pre * level <= 40016638 * 100) by (nonlinear_arith)
            requires
                hp_pre <= 40016638,
                level <= 100,
        ;
    }
    let hp: u32 = (hp_pre * level) / 100 + level + 10;
    let attack = calculate_stat(
        base_stats.attack,
        ivs.attack,
        evs.attack,
        level,
        nature.get_multiplier(StatName::Attack),
    );
    let defense = calculate_stat(
        base_stats.defense,
        ivs.defense,
        evs.defense,
        level,
        nature.get_multiplier(StatName::Defense),
    );
    let special_attack = calculate_stat(
        base_stats.special_attack,
        ivs.special_attack,
        evs.special_attack,
        level,
        nature.get_multiplier(StatName::SpecialAttack),
    );
    let special_defense = calculate_stat(
        base_stats.special_defense,
        ivs.special_defense,
        evs.special_defense,
        level,
        nature.get_multiplier(StatName::SpecialDefense),
    );
    let speed = calculate_stat(
        base_stats.speed,
        ivs.speed,
        evs.speed,
        level,
        nature.get_multiplier(StatName::Speed),
    );
    CalculatedStats { hp, attack, defense, special_attack, special_defense, speed }
}

} // verus!
