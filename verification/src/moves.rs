//! Move metadata and the type-effectiveness chart: a static repository the
//! battle engine consults for power, category, effects and PP of each move.
//!
//! Chart multipliers are exact rationals in hundredths (100 = neutral), so
//! a product over defender types is an exact fraction with a power of 100
//! as denominator.

use vstd::prelude::*;

use crate::monsters::MonsterMove;
use crate::state::StatusCondition;

verus! {

/// The closed set of elemental types.
#[derive(Debug, Clone, Copy, PartialEq, Eq, Hash, Structural)]
pub enum PokemonType {
    Normal,
    Fire,
    Water,
    Grass,
    Electric,
    Ice,
    Fighting,
    Poison,
    Ground,
    Flying,
    Psychic,
    Bug,
    Rock,
    Phantom,
    Dragon,
    Steel,
    Dark,
    Fairy,
}

/// Number of elemental types; the chart is a dense square of this side.
pub const TYPE_COUNT: usize = 18;

/// Largest chart multiplier accepted, in hundredths (ten times neutral).
pub const MAX_CHART_MULTIPLIER: u32 = 1000;

pub open spec fn spec_type_index(t: PokemonType) -> int {
    match t {
        PokemonType::Normal => 0,
        PokemonType::Fire => 1,
        PokemonType::Water => 2,
        PokemonType::Grass => 3,
        PokemonType::Electric => 4,
        PokemonType::Ice => 5,
        PokemonType::Fighting => 6,
        PokemonType::Poison => 7,
        PokemonType::Ground => 8,
        PokemonType::Flying => 9,
        PokemonType::Psychic => 10,
        PokemonType::Bug => 11,
        PokemonType::Rock => 12,
        PokemonType::Phantom => 13,
        PokemonType::Dragon => 14,
        PokemonType::Steel => 15,
        PokemonType::Dark => 16,
        PokemonType::Fairy => 17,
    }
}

/// Dense position of a type in the chart.
pub fn type_index(t: PokemonType) -> (i: usize)
    ensures
        i == spec_type_index(t),
        i < TYPE_COUNT,
{
    match t {
        PokemonType::Normal => 0,
        PokemonType::Fire => 1,
        PokemonType::Water => 2,
        PokemonType::Grass => 3,
        PokemonType::Electric => 4,
        PokemonType::Ice => 5,
        PokemonType::Fighting => 6,
        PokemonType::Poison => 7,
        PokemonType::Ground => 8,
        PokemonType::Flying => 9,
        PokemonType::Psychic => 10,
        PokemonType::Bug => 11,
        PokemonType::Rock => 12,
        PokemonType::Phantom => 13,
        PokemonType::Dragon => 14,
        PokemonType::Steel => 15,
        PokemonType::Dark => 16,
        PokemonType::Fairy => 17,
    }
}

/// The type-effectiveness chart: attack type by defender type, each entry a
/// multiplier in hundredths. An entry never set stays neutral (100).
#[derive(Debug, Clone)]
pub struct TypeChart {
    pub multipliers: Vec<u32>,
}

impl TypeChart {
    /// A full square of entries, each at most `MAX_CHART_MULTIPLIER`.
    pub open spec fn wf(&self) -> bool {
        &&& self.multipliers@.len() == TYPE_COUNT * TYPE_COUNT
        &&& forall|i: int|
            0 <= i < self.multipliers@.len() ==> self.multipliers@[i] <= MAX_CHART_MULTIPLIER
    }

    /// The stored multiplier, in hundredths.
    pub open spec fn spec_multiplier(&self, attack: PokemonType, defender: PokemonType) -> u32 {
        self.multipliers@[spec_type_index(attack) * (TYPE_COUNT as int) + spec_type_index(defender)]
    }

    /// A chart with every entry neutral.
    pub fn new() -> (chart: TypeChart)
        ensures
            chart.wf(),
            forall|a: PokemonType, d: PokemonType| chart.spec_multiplier(a, d) == 100,
    {
        let mut multipliers: Vec<u32> = Vec::new();
        let mut i: usize = 0;
        while i < TYPE_COUNT * TYPE_COUNT
            invariant
                i <= TYPE_COUNT * TYPE_COUNT,
                multipliers@.len() == i,
                forall|j: int| 0 <= j < i ==> multipliers@[j] == 100,
            decreases TYPE_COUNT * TYPE_COUNT - i,
        {
            multipliers.push(100);
            i = i + 1;
        }
        TypeChart { multipliers }
    }

    /// Records one attack-versus-defender multiplier, in hundredths.
    pub fn set(&mut self, attack: PokemonType, defender: PokemonType, hundredths: u32)
        requires
            old(self).wf(),
            hundredths <= MAX_CHART_MULTIPLIER,
        ensures
            final(self).wf(),
            final(self).spec_multiplier(attack, defender) == hundredths,
            forall|a: PokemonType, d: PokemonType|
                #![auto]
                spec_type_index(a) * (TYPE_COUNT as int) + spec_type_index(d) != spec_type_index(
                    attack,
                ) * (TYPE_COUNT as int) + spec_type_index(defender) ==> final(self).spec_multiplier(
                    a,
                    d,
                ) == old(self).spec_multiplier(a, d),
    {
        let ai = type_index(attack);
        let di = type_index(defender);
        let idx = ai * TYPE_COUNT + di;
        self.multipliers.set(idx, hundredths);
    }

    /// The multiplier the chart holds for an attack type against one
    /// defender type, in hundredths.
    pub fn get(&self, attack: PokemonType, defender: PokemonType) -> (m: u32)
        requires
            self.wf(),
        ensures
            m == self.spec_multiplier(attack, defender),
            m <= MAX_CHART_MULTIPLIER,
    {
        let ai = type_index(attack);
        let di = type_index(defender);
        self.multipliers[ai * TYPE_COUNT + di]
    }
}

/// Categorizes moves as physical, special, or status.
#[derive(Debug, Clone, Copy, PartialEq, Eq, Hash, Structural)]
pub enum MoveCategory {
    Physical,
    Special,
    Status,
}

/// Whom a move can target.
#[derive(Debug, Clone, Copy, PartialEq, Eq, Hash, Structural)]
pub enum TargetType {
    User,
    NormalOpponent,
    AnyAdjacent,
    AllAdjacentOpponents,
    UserSide,
    OpponentSide,
    WholeField,
    Ally,
    AllPokemon,
    RandomOpponent,
    UserAndAllies,
    AllOtherPokemon,
    AllOpponents,
    UserOrAlly,
    Adjacent,
}

/// Whether an effect lands on the move's user or its target.
#[derive(Debug, Clone, Copy, PartialEq, Eq, Hash, Structural)]
pub enum EffectTarget {
    User,
    Target,
}

/// Which side of the field a field effect touches.
#[derive(Debug, Clone, Copy, PartialEq, Eq, Hash, Structural)]
pub enum EffectTargetSide {
    User,
    Opponent,
    WholeField,
}

/// Stats an effect can change.
#[derive(Debug, Clone, Copy, PartialEq, Eq, Hash, Structural)]
pub enum Stat {
    Hp,
    Attack,
    Defense,
    SpecialAttack,
    SpecialDefense,
    Speed,
    Accuracy,
    Evasion,
}

/// Field effects a move can lay down.
#[derive(Debug, Clone, Copy, PartialEq, Eq, Hash, Structural)]
pub enum FieldEffectType {
    Reflect,
    LightScreen,
    Safeguard,
    Tailwind,
    StealthRock,
    Spikes,
    ToxicSpikes,
    StickyWeb,
    TrickRoom,
    MagicRoom,
    WonderRoom,
    Gravity,
    Rain,
    HarshSunlight,
    Sandstorm,
    Hail,
}

/// Where a fixed-damage move takes its amount from.
#[derive(Debug, Clone, Copy, PartialEq, Eq, Hash, Structural)]
pub enum FixedDamageSource {
    UserLevel,
}

/// Volatile statuses a move can inflict.
#[derive(Debug, Clone, Copy, PartialEq, Eq, Hash, Structural)]
pub enum VolatileStatusType {
    Confusion,
    Flinch,
    Taunt,
    LeechSeed,
    Substitute,
    Bound,
    Infatuation,
    Disable,
    Encore,
    Torment,
    Imprison,
    Yawn,
    HealBlock,
    NoRetreat,
    Trapped,
    Embargo,
    Ingrain,
    Aquaring,
    FocusEnergy,
    MagnetRise,
    Stockpile,
    Minimize,
    DefenseCurl,
    Rage,
    MudSport,
    WaterSport,
    LuckyChant,
    Recharge,
    TakeAim,
    Curse,
}

/// Hit-count bounds of a multi-hit move.
#[derive(Debug, Clone, Copy, PartialEq, Eq, Structural)]
pub struct MultiHitParams {
    pub min: u8,
    pub max: u8,
}

/// One stat-change entry of a move effect.
#[derive(Debug, Clone, Copy, PartialEq, Eq, Structural)]
pub struct StatChangeParam {
    pub stat: Stat,
    pub stages: i8,
}

/// What a move does beyond raw damage.
#[derive(Debug, Clone)]
pub enum EffectData {
    Damage {
        multi_hit: Option<MultiHitParams>,
        crit_stage_bonus: Option<u8>,
        drain_percent: Option<u8>,
        recoil_damage_percent: Option<u8>,
    },
    ApplyStatus { status: StatusCondition, target: EffectTarget },
    StatChange { changes: Vec<StatChangeParam>, target: EffectTarget },
    ApplyFieldEffect {
        effect_type: FieldEffectType,
        duration: Option<u8>,
        target_side: EffectTargetSide,
    },
    Heal { target: EffectTarget, percent: Option<u8>, fixed_amount: Option<u32> },
    SwitchTarget {},
    FixedDamage { damage_source: FixedDamageSource },
    ApplyVolatileStatus { status: VolatileStatusType, target: EffectTarget },
    FlinchTarget {},
    Rest {},
    Substitute { hp_cost_percent: u8 },
    ProtectDetect {},
    BindTarget { min_turns: u8, max_turns: u8 },
    MultiTurnCharge {},
    CrashDamageOnFail { damage_percent_max_hp: Option<u8> },
    RecoilPercentMaxHp { percent: u8 },
    OneHitKO {},
    AffectPp { target: EffectTarget, amount: i8 },
    ForceSwitch {},
    UniqueLogic {},
}

/// A chance-gated secondary effect of a move.
#[derive(Debug, Clone)]
pub struct SecondaryEffectData {
    pub chance: u8,
    pub effect: EffectData,
}

/// Largest move power the damage engine accepts.
pub const MAX_MOVE_POWER: u32 = 65535;

/// Static data of one move.
#[derive(Debug, Clone)]
pub struct MoveData {
    pub id: u32,
    pub name: String,
    pub accuracy: Option<u8>,
    pub power: Option<u32>,
    pub pp: u8,
    pub priority: i8,
    pub move_type: PokemonType,
    pub damage_class: MoveCategory,
    pub target: TargetType,
    pub effect: EffectData,
    pub secondary_effect: Option<SecondaryEffectData>,
    pub description: String,
}

impl MoveData {
    /// Power, when present, fits the damage engine's bound.
    pub open spec fn wf(&self) -> bool {
        match self.power {
            Some(p) => p <= MAX_MOVE_POWER,
            None => true,
        }
    }
}

/// First move with the given id, if any.
pub open spec fn spec_find_move(moves: Seq<MoveData>, move_id: u32) -> Option<int>
    decreases moves.len(),
{
    if moves.len() == 0 {
        None
    } else if moves[0].id == move_id {
        Some(0)
    } else {
        match spec_find_move(moves.skip(1), move_id) {
            Some(i) => Some(i + 1),
            None => None,
        }
    }
}

/// Static lookup of move metadata and the type-effectiveness chart.
#[derive(Debug, Clone)]
pub struct MoveRepository {
    pub moves: Vec<MoveData>,
    pub type_chart: TypeChart,
}

impl MoveRepository {
    /// Chart well-formed, every move's data well-formed.
    pub open spec fn wf(&self) -> bool {
        &&& self.type_chart.wf()
        &&& forall|i: int| 0 <= i < self.moves@.len() ==> #[trigger] self.moves@[i].wf()
    }

    /// A repository over the given move table and chart.
    pub fn new(moves: Vec<MoveData>, type_chart: TypeChart) -> (repo: MoveRepository)
        requires
            type_chart.wf(),
            forall|i: int| 0 <= i < moves@.len() ==> #[trigger] moves@[i].wf(),
        ensures
            repo.wf(),
            repo.moves == moves,
            repo.type_chart == type_chart,
    {
        MoveRepository { moves, type_chart }
    }

    /// Get move data by ID: the first entry with that id, or None.
    pub fn get_move(&self, move_id: u32) -> (m: Option<&MoveData>)
        ensures
            match m {
                Some(data) => {
                    &&& spec_find_move(self.moves@, move_id) is Some
                    &&& *data == self.moves@[spec_find_move(self.moves@, move_id).unwrap()]
                    &&& data.id == move_id
                },
                None => spec_find_move(self.moves@, move_id) is None,
            },
            self.wf() && m is Some ==> m.unwrap().wf(),
    {
        let mut i: usize = 0;
        proof {
            assert(self.moves@.skip(0) =~= self.moves@);
        }
        while i < self.moves.len()
            invariant
                i <= self.moves@.len(),
                forall|j: int| 0 <= j < i ==> self.moves@[j].id != move_id,
                spec_find_move(self.moves@, move_id) == match spec_find_move(
                    self.moves@.skip(i as int),
                    move_id,
                ) {
                    Some(k) => Some(k + i),
                    None => None::<int>,
                },
            decreases self.moves@.len() - i,
        {
            if self.moves[i].id == move_id {
                proof {
                    assert(self.moves@.skip(i as int)[0] == self.moves@[i as int]);
                }
                return Some(&self.moves[i]);
            }
            proof {
                assert(self.moves@.skip(i as int).skip(1) =~= self.moves@.skip(i as int + 1));
                assert(self.moves@.skip(i as int)[0] == self.moves@[i as int]);
            }
            i = i + 1;
        }
        proof {
            assert(self.moves@.skip(i as int).len() == 0);
        }
        None
    }
}


/// The move stands in the available list with a learnable level.
pub open spec fn move_from_available(m: MonsterMove, available: Seq<(u32, u32)>, level: u32) -> bool {
    exists|j: int|
        0 <= j < available.len() && m.id == (#[trigger] available[j]).0 && available[j].1 <= level
}

impl MoveRepository {
    /// Create a MonsterMove with proper PP from the move data.
    pub fn create_monster_move(&self, move_id: u32) -> (r: Option<MonsterMove>)
        ensures
            match r {
                Some(m) => {
                    &&& m.id == move_id
                    &&& spec_find_move(self.moves@, move_id) is Some
                    &&& m.pp_remaining == self.moves@[spec_find_move(
                        self.moves@,
                        move_id,
                    ).unwrap()].pp
                },
                None => spec_find_move(self.moves@, move_id) is None,
            },
    {
        match self.get_move(move_id) {
            Some(data) => Some(MonsterMove { id: move_id, pp_remaining: data.pp }),
            None => None,
        }
    }

    /// Selects up to four moves for a monster: moves learnable at the
    /// level, each carried over with its repository PP.
    pub fn select_moves_for_monster(&self, available_moves: &Vec<(u32, u32)>, level: u32) -> (r: Vec<
        MonsterMove,
    >)
        ensures
            r@.len() <= 4,
            forall|k: int|
                0 <= k < r@.len() ==> move_from_available(
                    #[trigger] r@[k],
                    available_moves@,
                    level,
                ),
    {
        let mut result: Vec<MonsterMove> = Vec::new();
        let mut i: usize = 0;
        while i < available_moves.len()
            invariant
                i <= available_moves@.len(),
                result@.len() <= 4,
                forall|k: int|
                    0 <= k < result@.len() ==> move_from_available(
                        #[trigger] result@[k],
                        available_moves@,
                        level,
                    ),
            decreases available_moves@.len() - i,
        {
            let entry = available_moves[i];
            if entry.1 <= level && result.len() < 4 {
                match self.create_monster_move(entry.0) {
                    Some(m) => {
                        let ghost jj = i as int;
                        result.push(m);
                        proof {
                            assert(available_moves@[jj].0 == m.id && available_moves@[jj].1
                                <= level);
                            assert(move_from_available(m, available_moves@, level));
                        }
                    },
                    None => {},
                }
            }
            i = i + 1;
        }
        result
    }
}

} // verus!
