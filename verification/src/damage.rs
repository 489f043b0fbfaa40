//! Damage calculation: the traditional formula
//! `((2*level/5 + 2) * power * attack/defense) / 50 + 2`, scaled by STAB,
//! type effectiveness, critical hit and the random factor, floored, and
//! forced to zero whenever effectiveness is exactly zero.
//!
//! All multipliers are exact rationals: STAB and critical are 3/2,
//! effectiveness is a product of chart entries in hundredths, the random
//! factor is a percentage in 85..=100.

use vstd::prelude::*;

use crate::external::random_below;
use crate::moves::{MoveCategory, MoveData, PokemonType, TypeChart, MAX_CHART_MULTIPLIER};
use crate::stats::CalculatedStats;

verus! {

/// A type-effectiveness value as an exact fraction.
#[derive(Debug, Clone, Copy, PartialEq, Eq, Structural)]
pub struct Effectiveness {
    pub num: u64,
    pub den: u64,
}

impl Effectiveness {
    /// The neutral multiplier.
    pub fn neutral() -> (e: Effectiveness)
        ensures
            e == (Effectiveness { num: 1, den: 1 }),
    {
        Effectiveness { num: 1, den: 1 }
    }

    /// Exactly zero: the move cannot touch the defender.
    pub open spec fn spec_is_zero(&self) -> bool {
        self.num == 0
    }

    pub fn is_zero(&self) -> (r: bool)
        ensures
            r == self.spec_is_zero(),
    {
        self.num == 0
    }
}

/// `b` to the power `e`.
pub open spec fn spec_pow(b: int, e: nat) -> int
    decreases e,
{
    if e == 0 {
        1
    } else {
        b * spec_pow(b, (e - 1) as nat)
    }
}

/// Numerator of the effectiveness product: the chart entries (hundredths)
/// of the attack type against each defender type, multiplied.
pub open spec fn spec_eff_num(chart: TypeChart, attack: PokemonType, defs: Seq<PokemonType>) -> int
    decreases defs.len(),
{
    if defs.len() == 0 {
        1
    } else {
        chart.spec_multiplier(attack, defs[0]) * spec_eff_num(chart, attack, defs.skip(1))
    }
}

/// The effectiveness a chart gives: product of the entries over the
/// defender's types, over 100 per type; neutral when there is no chart.
pub open spec fn spec_effectiveness(
    chart: Option<TypeChart>,
    attack: PokemonType,
    defs: Seq<PokemonType>,
) -> Effectiveness {
    match chart {
        None => Effectiveness { num: 1, den: 1 },
        Some(c) => Effectiveness {
            num: spec_eff_num(c, attack, defs) as u64,
            den: spec_pow(100, defs.len()) as u64,
        },
    }
}

proof fn lemma_eff_num_bounds(chart: TypeChart, attack: PokemonType, defs: Seq<PokemonType>)
    requires
        chart.wf(),
    ensures
        0 <= spec_eff_num(chart, attack, defs) <= spec_pow(MAX_CHART_MULTIPLIER as int, defs.len()),
    decreases defs.len(),
{
    if defs.len() == 0 {
    } else {
        lemma_eff_num_bounds(chart, attack, defs.skip(1));
        let m = chart.spec_multiplier(attack, defs[0]) as int;
        let rest = spec_eff_num(chart, attack, defs.skip(1));
        let bound = spec_pow(MAX_CHART_MULTIPLIER as int, (defs.len() - 1) as nat);
        assert(0 <= m * rest <= MAX_CHART_MULTIPLIER * bound) by (nonlinear_arith)
            requires
                0 <= m <= MAX_CHART_MULTIPLIER,
                0 <= rest <= bound,
        ;
    }
}

proof fn lemma_pow_positive(b: int, e: nat)
    requires
        b >= 1,
    ensures
        spec_pow(b, e) >= 1,
    decreases e,
{
    if e > 0 {
        lemma_pow_positive(b, (e - 1) as nat);
        let rest = spec_pow(b, (e - 1) as nat);
        assert(b * rest >= 1) by (nonlinear_arith)
            requires
                b >= 1,
                rest >= 1,
        ;
    }
}

/// Whether a vector of types holds the given one (the STAB test).
pub fn types_contain(types: &Vec<PokemonType>, t: PokemonType) -> (r: bool)
    ensures
        r == types@.contains(t),
{
    let mut i: usize = 0;
    while i < types.len()
        invariant
            i <= types@.len(),
            forall|j: int| 0 <= j < i ==> types@[j] != t,
        decreases types@.len() - i,
    {
        if types[i] == t {
            return true;
        }
        i = i + 1;
    }
    false
}

/// Calculate type effectiveness based on the type chart: neutral with no
/// chart, else the exact product of the chart entries over the defender's
/// types.
pub fn calculate_type_effectiveness(
    type_chart: Option<&TypeChart>,
    attack_type: PokemonType,
    defender_types: &Vec<PokemonType>,
) -> (eff: Effectiveness)
    requires
        match type_chart {
            Some(c) => c.wf(),
            None => true,
        },
        defender_types@.len() <= 4,
    ensures
        eff == spec_effectiveness(
            match type_chart {
                Some(c) => Some(*c),
                None => None,
            },
            attack_type,
            defender_types@,
        ),
        eff.num <= 1000000000000,
        1 <= eff.den <= 100000000,
{
    proof {
        lemma_pow_small_values();
    }
    match type_chart {
        None => Effectiveness { num: 1, den: 1 },
        Some(chart) => {
            let ghost all = defender_types@;
            let mut num: u64 = 1;
            let mut den: u64 = 1;
            let mut i: usize = 0;
            proof {
                assert(all.skip(0) =~= all);
            }
            while i < defender_types.len()
                invariant
                    chart.wf(),
                    all == defender_types@,
                    all.len() <= 4,
                    i <= all.len(),
                    den == spec_pow(100, i as nat),
                    1 <= den <= spec_pow(100, i as nat),
                    0 <= num <= spec_pow(1000, i as nat),
                    spec_eff_num(*chart, attack_type, all) == num * spec_eff_num(
                        *chart,
                        attack_type,
                        all.skip(i as int),
                    ),
                decreases all.len() - i,
            {
                let m = chart.get(attack_type, defender_types[i]);
                proof {
                    lemma_pow_positive(100, i as nat);
                    lemma_pow_positive(100, (i + 1) as nat);
                    assert(spec_pow(1000, (i + 1) as nat) == 1000 * spec_pow(1000, i as nat));
                    assert(spec_pow(100, (i + 1) as nat) == 100 * spec_pow(100, i as nat));
                    lemma_pow_small_values();
                    let rest = spec_eff_num(*chart, attack_type, all.skip(i as int));
                    assert(all.skip(i as int)[0] == all[i as int]);
                    assert(all.skip(i as int).skip(1) =~= all.skip(i as int + 1));
                    let restn = spec_eff_num(*chart, attack_type, all.skip(i as int + 1));
                    assert(rest == m * restn);
                    assert(num * rest == (num * m) * restn) by (nonlinear_arith)
                        requires
                            rest == m * restn,
                    ;
                    let p = spec_pow(1000, i as nat);
                    assert(num * m <= p * 1000) by (nonlinear_arith)
                        requires
                            0 <= num <= p,
                            0 <= m <= 1000,
                    ;
                    assert(num * m >= 0) by (nonlinear_arith)
                        requires
                            num >= 0,
                            m >= 0,
                    ;
                    assert(p * 1000 == 1000 * p);
                    // the running product stays within four chart factors
                    assert(spec_pow(1000, (i + 1) as nat) <= spec_pow(1000, 4)) by {
                        assert((i + 1) as nat <= 4);
                        lemma_pow_monotone_1000((i + 1) as nat);
                    };
                    assert(spec_pow(100, (i + 1) as nat) <= spec_pow(100, 4)) by {
                        lemma_pow_monotone_100((i + 1) as nat);
                    };
                }
                num = num * (m as u64);
                den = den * 100;
                i = i + 1;
            }
            proof {
                assert(all.skip(i as int).len() == 0);
                assert(spec_eff_num(*chart, attack_type, all.skip(i as int)) == 1);
                lemma_eff_num_bounds(*chart, attack_type, all);
            }
            Effectiveness { num, den }
        },
    }
}

/// The concrete small powers of 100 and 1000 the chart arithmetic uses.
proof fn lemma_pow_small_values()
    ensures
        spec_pow(1000, 0) == 1,
        spec_pow(1000, 1) == 1000,
        spec_pow(1000, 2) == 1000000,
        spec_pow(1000, 3) == 1000000000,
        spec_pow(1000, 4) == 1000000000000,
        spec_pow(100, 0) == 1,
        spec_pow(100, 1) == 100,
        spec_pow(100, 2) == 10000,
        spec_pow(100, 3) == 1000000,
        spec_pow(100, 4) == 100000000,
{
    reveal_with_fuel(spec_pow, 5);
}

proof fn lemma_pow_monotone_1000(e: nat)
    requires
        e <= 4,
    ensures
        spec_pow(1000, e) <= spec_pow(1000, 4),
{
    lemma_pow_small_values();
    reveal_with_fuel(spec_pow, 5);
}

proof fn lemma_pow_monotone_100(e: nat)
    requires
        e <= 4,
    ensures
        spec_pow(100, e) <= spec_pow(100, 4),
{
    lemma_pow_small_values();
    reveal_with_fuel(spec_pow, 5);
}

/// The damage the formula yields, as an exact floor, before saturation to
/// `u32`: zero whenever effectiveness is exactly zero.
pub open spec fn spec_damage_value(
    level: u32,
    power: u32,
    attack: u32,
    defense: u32,
    stab: bool,
    eff: Effectiveness,
    crit: bool,
    roll: u32,
) -> int {
    if eff.num == 0 {
        0
    } else {
        let n = ((2 * level + 10) * power * attack + 500 * defense) * (if stab {
            3int
        } else {
            2int
        }) * eff.num * (if crit {
            3int
        } else {
            2int
        }) * roll;
        let d = 250 * defense * 2 * eff.den * 2 * 100;
        n / d
    }
}

/// `spec_damage_value` clamped into `u32`.
pub open spec fn spec_damage_u32(
    level: u32,
    power: u32,
    attack: u32,
    defense: u32,
    stab: bool,
    eff: Effectiveness,
    crit: bool,
    roll: u32,
) -> u32 {
    let v = spec_damage_value(level, power, attack, defense, stab, eff, crit, roll);
    if v > u32::MAX {
        u32::MAX
    } else {
        v as u32
    }
}

/// Effectiveness zero forces damage to exactly zero, whatever the power,
/// level, stats, rolls or rounding.
pub proof fn lemma_zero_effectiveness_zero_damage(
    level: u32,
    power: u32,
    attack: u32,
    defense: u32,
    stab: bool,
    eff: Effectiveness,
    crit: bool,
    roll: u32,
)
    requires
        eff.num == 0,
    ensures
        spec_damage_value(level, power, attack, defense, stab, eff, crit, roll) == 0,
        spec_damage_u32(level, power, attack, defense, stab, eff, crit, roll) == 0,
{
}

/// What `calculate_damage` returns once the rolls are fixed.
pub open spec fn spec_damage_result(
    source_level: u32,
    source_stats: CalculatedStats,
    source_types: Seq<PokemonType>,
    target_stats: CalculatedStats,
    target_types: Seq<PokemonType>,
    move_details: MoveData,
    type_chart: Option<TypeChart>,
    is_critical: bool,
    random_factor: u32,
) -> (u32, Effectiveness, bool) {
    let power = match move_details.power {
        Some(p) => p,
        None => 0,
    };
    if power == 0 {
        (0, Effectiveness { num: 1, den: 1 }, false)
    } else {
        match move_details.damage_class {
            MoveCategory::Status => (0, Effectiveness { num: 1, den: 1 }, false),
            _ => {
                let attack = if move_details.damage_class is Physical {
                    source_stats.attack
                } else {
                    source_stats.special_attack
                };
                let defense = if move_details.damage_class is Physical {
                    target_stats.defense
                } else {
                    target_stats.special_defense
                };
                let eff = spec_effectiveness(type_chart, move_details.move_type, target_types);
                let stab = source_types.contains(move_details.move_type);
                (
                    spec_damage_u32(
                        source_level,
                        power,
                        attack,
                        defense,
                        stab,
                        eff,
                        is_critical,
                        random_factor,
                    ),
                    eff,
                    is_critical,
                )
            },
        }
    }
}

/// Damage, effectiveness and the critical flag for one use of a move, with
/// the two random outcomes (critical, random factor) passed in. Status
/// moves and moves without power deal (0, neutral, false).
pub fn calculate_damage_from_rolls(
    source_level: u32,
    source_stats: &CalculatedStats,
    source_types: &Vec<PokemonType>,
    target_stats: &CalculatedStats,
    target_types: &Vec<PokemonType>,
    move_details: &MoveData,
    type_chart: Option<&TypeChart>,
    is_critical: bool,
    random_factor: u32,
) -> (r: (u32, Effectiveness, bool))
    requires
        move_details.wf(),
        match type_chart {
            Some(c) => c.wf(),
            None => true,
        },
        1 <= source_level <= 100,
        85 <= random_factor <= 100,
        target_types@.len() <= 4,
        target_stats.defense >= 1,
        target_stats.special_defense >= 1,
    ensures
        r == spec_damage_result(
            source_level,
            *source_stats,
            source_types@,
            *target_stats,
            target_types@,
            *move_details,
            match type_chart {
                Some(c) => Some(*c),
                None => None,
            },
            is_critical,
            random_factor,
        ),
{
    let power = match move_details.power {
        Some(p) => p,
        None => 0,
    };
    if power == 0 {
        return (0, Effectiveness { num: 1, den: 1 }, false);
    }
    let (attack, defense) = match move_details.damage_class {
        MoveCategory::Physical => (source_stats.attack, target_stats.defense),
        MoveCategory::Special => (source_stats.special_attack, target_stats.special_defense),
        MoveCategory::Status => {
            return (0, Effectiveness { num: 1, den: 1 }, false);
        },
    };
    let eff = calculate_type_effectiveness(type_chart, move_details.move_type, target_types);
    let stab = types_contain(source_types, move_details.move_type);
    let damage = damage_from_parts(
        source_level,
        power,
        attack,
        defense,
        stab,
        eff,
        is_critical,
        random_factor,
    );
    (damage, eff, is_critical)
}

/// The integer damage kernel: evaluates the formula exactly in 128-bit
/// arithmetic and saturates into `u32`.
fn damage_from_parts(
    level: u32,
    power: u32,
    attack: u32,
    defense: u32,
    stab: bool,
    eff: Effectiveness,
    is_critical: bool,
    random_factor: u32,
) -> (damage: u32)
    requires
        1 <= level <= 100,
        power <= 65535,
        defense >= 1,
        85 <= random_factor <= 100,
        eff.num <= 1000000000000,
        1 <= eff.den <= 100000000,
    ensures
        damage == spec_damage_u32(level, power, attack, defense, stab, eff, is_critical, random_factor),
{
    if eff.num == 0 {
        return 0;
    }

    let stab_num: u128 = if stab {
        3
    } else {
        2
    };
    let crit_num: u128 = if is_critical {
        3
    } else {
        2
    };
    let lv: u128 = 2 * level as u128 + 10;
    proof {
        assert(lv * (power as u128) <= 210 * 65535) by (nonlinear_arith)
            requires
                lv <= 210,
                power <= 65535,
        ;
    }
    let p1: u128 = lv * power as u128;
    proof {
        assert(p1 * (attack as u128) <= 13762350 * 0xffff_ffffu128) by (nonlinear_arith)
            requires
                p1 <= 13762350,
                attack <= 0xffff_ffffu64,
        ;
    }
    let base: u128 = p1 * attack as u128 + 500 * defense as u128;
    proof {
        assert(base * stab_num <= 0x10_0000_0000_0000_0000u128) by (nonlinear_arith)
            requires
                base <= 0x6000_0000_0000_0000u128,
                stab_num <= 3,
        ;
    }
    let n1: u128 = base * stab_num;
    proof {
        assert(n1 * (eff.num as u128) <= 0x10_0000_0000_0000_0000u128 * 1000000000000)
            by (nonlinear_arith)
            requires
                n1 <= 0x10_0000_0000_0000_0000u128,
                eff.num <= 1000000000000,
        ;
    }
    let n2: u128 = n1 * eff.num as u128;
    proof {
        assert(n2 * crit_num * (random_factor as u128) <= n2 * 300 && n2 * 300
            <= 0x4000_0000_0000_0000_0000_0000_0000u128 * 300) by (nonlinear_arith)
            requires
                0 <= n2 <= 0x4000_0000_0000_0000_0000_0000_0000u128,
                0 <= crit_num <= 3,
                0 <= random_factor <= 100,
        ;
    }
    let n: u128 = n2 * crit_num * random_factor as u128;
    proof {
        assert(250 * (defense as u128) * 2 * (eff.den as u128) * 2 * 100 <= 250
            * 0x1_0000_0000u128 * 2 * 100000000 * 2 * 100 && 250 * (defense as u128) * 2 * (
        eff.den as u128) * 2 * 100 >= 1) by (nonlinear_arith)
            requires
                1 <= defense <= 0xffff_ffffu64,
                1 <= eff.den <= 100000000,
        ;
    }
    let d: u128 = 250 * defense as u128 * 2 * eff.den as u128 * 2 * 100;
    let q: u128 = n / d;
    let damage: u32 = if q > u32::MAX as u128 {
        u32::MAX
    } else {
        q as u32
    };
    damage
}

/// The damage one Struggle use deals from its parts: a 50-power physical
/// hit, exactly the formula's value under the given rolls.
pub fn struggle_damage_from_rolls(
    level: u32,
    attack: u32,
    stab: bool,
    defense: u32,
    eff: Effectiveness,
    is_critical: bool,
    random_factor: u32,
) -> (damage: u32)
    requires
        1 <= level <= 100,
        defense >= 1,
        85 <= random_factor <= 100,
        eff.num <= 1000000000000,
        1 <= eff.den <= 100000000,
    ensures
        damage == spec_damage_u32(level, 50, attack, defense, stab, eff, is_critical, random_factor),
{
    damage_from_parts(level, 50, attack, defense, stab, eff, is_critical, random_factor)
}

/// There are rolls of the critical chance and the random factor under
/// which the damage formula yields exactly this result.
pub open spec fn spec_damage_result_possible(
    r: (u32, Effectiveness, bool),
    source_level: u32,
    source_stats: CalculatedStats,
    source_types: Seq<PokemonType>,
    target_stats: CalculatedStats,
    target_types: Seq<PokemonType>,
    move_details: MoveData,
    chart: Option<TypeChart>,
) -> bool {
    exists|crit: bool, roll: u32|
        #![trigger spec_damage_result(
            source_level,
            source_stats,
            source_types,
            target_stats,
            target_types,
            move_details,
            chart,
            crit,
            roll,
        )]
        85 <= roll <= 100 && r == spec_damage_result(
            source_level,
            source_stats,
            source_types,
            target_stats,
            target_types,
            move_details,
            chart,
            crit,
            roll,
        )
}

/// Calculate damage using the traditional formula, rolling the critical
/// chance (1 in 16) and the random factor (85..=100 hundredths). Whatever
/// the rolls, the result is the formula's value for some such pair, and a
/// zero effectiveness always yields zero damage.
pub fn calculate_damage(
    source_level: u32,
    source_stats: &CalculatedStats,
    source_types: &Vec<PokemonType>,
    target_stats: &CalculatedStats,
    target_types: &Vec<PokemonType>,
    move_details: &MoveData,
    type_chart: Option<&TypeChart>,
) -> (r: (u32, Effectiveness, bool))
    requires
        move_details.wf(),
        match type_chart {
            Some(c) => c.wf(),
            None => true,
        },
        1 <= source_level <= 100,
        target_types@.len() <= 4,
        target_stats.defense >= 1,
        target_stats.special_defense >= 1,
    ensures
        spec_damage_result_possible(
            r,
            source_level,
            *source_stats,
            source_types@,
            *target_stats,
            target_types@,
            *move_details,
            match type_chart {
                Some(c) => Some(*c),
                None => None::<TypeChart>,
            },
        ),
{
    let is_critical = random_below(16) == 0;
    let random_factor = 85 + random_below(16);
    let r = calculate_damage_from_rolls(
        source_level,
        source_stats,
        source_types,
        target_stats,
        target_types,
        move_details,
        type_chart,
        is_critical,
        random_factor,
    );
    proof {
        let c = match type_chart {
            Some(cc) => Some(*cc),
            None => None::<TypeChart>,
        };
        assert(85 <= random_factor <= 100 && r == spec_damage_result(
            source_level,
            *source_stats,
            source_types@,
            *target_stats,
            target_types@,
            *move_details,
            c,
            is_critical,
            random_factor,
        ));
        assert(spec_damage_result_possible(
            r,
            source_level,
            *source_stats,
            source_types@,
            *target_stats,
            target_types@,
            *move_details,
            c,
        ));
    }
    r
}

} // verus!
