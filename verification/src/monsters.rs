//! Monster templates and live monster instances: the static data battles
//! draw stats and experience curves from, and the world-side monster
//! snapshot a wild battle starts from.

use vstd::prelude::*;

use crate::external::{new_instance_id, now_timestamp, random_below};
use crate::moves::MoveRepository;
use crate::state::StatusCondition;
use crate::stats::{
    calculate_stats, BaseStats, CalculatedStats, Nature, StatSet, MAX_BASE_STAT,
};

verus! {

/// A position in the game world, in tile coordinates.
#[derive(Debug, Clone, Copy, PartialEq, Eq, Structural)]
pub struct Position {
    pub x: u32,
    pub y: u32,
}

/// How a monster moves around the world.
#[derive(Debug, Clone)]
pub enum MovementPattern {
    Random,
    Linear,
    Patrol { waypoints: Vec<Position> },
    Stationary,
}

/// How fast a species gains levels.
#[derive(Debug, Clone, Copy, PartialEq, Eq, Hash, Structural)]
pub enum GrowthRate {
    Slow,
    Medium,
    MediumSlow,
    Fast,
}

/// A move a monster knows, with its remaining PP.
#[derive(Debug, Clone, Copy, PartialEq, Eq, Structural)]
pub struct MonsterMove {
    pub id: u32,
    pub pp_remaining: u8,
}

/// Static template defining a monster species.
#[derive(Debug, Clone)]
pub struct MonsterTemplate {
    pub id: u32,
    pub name: String,
    pub types: Vec<crate::moves::PokemonType>,
    pub abilities: Vec<String>,
    pub base_experience: u32,
    pub min_level: u32,
    pub max_level: u32,
    pub base_stats: BaseStats,
    pub movement_pattern: Option<MovementPattern>,
    pub moves: Vec<(u32, u32)>,
    pub growth_rate: GrowthRate,
}

impl MonsterTemplate {
    /// Base stats inside the calculator's bound, levels in 1..=100, and at
    /// most four types.
    pub open spec fn wf(&self) -> bool {
        &&& self.base_stats.hp <= MAX_BASE_STAT
        &&& self.base_stats.attack <= MAX_BASE_STAT
        &&& self.base_stats.defense <= MAX_BASE_STAT
        &&& self.base_stats.special_attack <= MAX_BASE_STAT
        &&& self.base_stats.special_defense <= MAX_BASE_STAT
        &&& self.base_stats.speed <= MAX_BASE_STAT
        &&& 1 <= self.min_level <= self.max_level <= 100
        &&& self.types@.len() <= 4
    }
}

/// Lightweight monster representation for client display.
#[derive(Debug, Clone)]
pub struct DisplayMonster {
    pub instance_id: String,
    pub template_id: u32,
    pub level: u32,
    pub position: Position,
    pub direction: String,
    pub in_combat: bool,
    pub max_hp: u32,
    pub current_hp: u32,
    pub name: String,
    pub types: Vec<crate::moves::PokemonType>,
}

/// Active monster instance in the game world.
#[derive(Debug, Clone)]
pub struct Monster {
    pub instance_id: String,
    pub template_id: u32,
    pub name: String,
    pub level: u32,
    pub position: Position,
    pub movement_pattern: MovementPattern,
    pub direction: String,
    pub spawn_time: u64,
    pub despawn_time: Option<u64>,
    pub current_hp: u32,
    pub status_condition: Option<StatusCondition>,
    pub types: Vec<crate::moves::PokemonType>,
    pub ability: String,
    pub moves: Vec<MonsterMove>,
    pub in_combat: bool,
    pub calculated_stats: CalculatedStats,
    pub ivs: StatSet<u8>,
    pub evs: StatSet<u16>,
    pub nature: Nature,
}

impl Monster {
    /// Level in range, HP within the calculated maximum, positive stats,
    /// at most four types.
    pub open spec fn wf(&self) -> bool {
        &&& 1 <= self.level <= 100
        &&& self.current_hp <= self.calculated_stats.hp
        &&& self.calculated_stats.hp >= 1
        &&& self.calculated_stats.attack >= 1
        &&& self.calculated_stats.defense >= 1
        &&& self.calculated_stats.special_attack >= 1
        &&& self.calculated_stats.special_defense >= 1
        &&& self.calculated_stats.speed >= 1
        &&& self.types@.len() <= 4
    }

    /// Creates a new monster instance from a template at a position and
    /// level: random IVs up to 31, zero EVs, a random nature, stats from
    /// the calculator, full HP, moves learnable at the level, and one of
    /// the template's abilities.
    pub fn new(
        template: &MonsterTemplate,
        position: Position,
        level: u32,
        move_repository: Option<&MoveRepository>,
    ) -> (m: Monster)
        requires
            template.wf(),
            1 <= level <= 100,
        ensures
            m.wf(),
            m.template_id == template.id,
            m.name == template.name,
            m.level == level,
            m.position == position,
            m.types@ == template.types@,
            m.in_combat == false,
            m.status_condition is None,
            m.current_hp == m.calculated_stats.hp,
            m.evs == (StatSet {
                hp: 0u16,
                attack: 0u16,
                defense: 0u16,
                special_attack: 0u16,
                special_defense: 0u16,
                speed: 0u16,
            }),
            m.calculated_stats == crate::stats::spec_calculated_stats(
                template.base_stats,
                level,
                m.ivs,
                m.evs,
                m.nature,
            ),
    {
        let ivs = StatSet::<u8> {
            hp: random_below(32) as u8,
            attack: random_below(32) as u8,
            defense: random_below(32) as u8,
            special_attack: random_below(32) as u8,
            special_defense: random_below(32) as u8,
            speed: random_below(32) as u8,
        };
        let evs = StatSet::<u16> {
            hp: 0,
            attack: 0,
            defense: 0,
            special_attack: 0,
            special_defense: 0,
            speed: 0,
        };
        let nature = Nature::random();
        let calculated_stats = calculate_stats(&template.base_stats, level, &ivs, &evs, &nature);
        let moves = match move_repository {
            Some(repo) => repo.select_moves_for_monster(&template.moves, level),
            None => default_moves_for_level(&template.moves, level),
        };
        let ability: String = if template.abilities.len() > 0 {
            let n = template.abilities.len();
            let bound: u32 = if n >= 0xffff_ffffusize {
                0xffff_ffffu32
            } else {
                n as u32
            };
            let k = random_below(bound) as usize;
            template.abilities[k].clone()
        } else {
            "None".to_owned()
        };
        let t = now_timestamp();
        let spawn_time: u64 = if t < 0 {
            0
        } else {
            t as u64
        };
        let movement_pattern = match &template.movement_pattern {
            Some(p) => p.clone(),
            None => MovementPattern::Random,
        };
        Monster {
            instance_id: new_instance_id(),
            template_id: template.id,
            name: template.name.clone(),
            level,
            position,
            movement_pattern,
            direction: "down".to_owned(),
            spawn_time,
            despawn_time: None,
            current_hp: calculated_stats.hp,
            status_condition: None,
            calculated_stats,
            types: crate::state::clone_vec_copy(&template.types),
            ability,
            moves,
            in_combat: false,
            ivs,
            evs,
            nature,
        }
    }

    /// Convert a full Monster to a lightweight DisplayMonster for client
    /// display: same identity, position and HP, maximum HP from the stats.
    pub fn to_display(&self) -> (d: DisplayMonster)
        ensures
            d.instance_id == self.instance_id,
            d.template_id == self.template_id,
            d.level == self.level,
            d.position == self.position,
            d.direction == self.direction,
            d.in_combat == self.in_combat,
            d.max_hp == self.calculated_stats.hp,
            d.current_hp == self.current_hp,
            d.name == self.name,
            d.types@ == self.types@,
    {
        DisplayMonster {
            instance_id: self.instance_id.clone(),
            template_id: self.template_id,
            level: self.level,
            position: self.position,
            direction: self.direction.clone(),
            in_combat: self.in_combat,
            max_hp: self.calculated_stats.hp,
            current_hp: self.current_hp,
            name: self.name.clone(),
            types: crate::state::clone_vec_copy(&self.types),
        }
    }
}

/// Moves learnable at or below the level, each with the default PP of 20;
/// the fallback when no move repository is at hand.
fn default_moves_for_level(available: &Vec<(u32, u32)>, level: u32) -> (r: Vec<MonsterMove>)
    ensures
        forall|k: int|
            0 <= k < r@.len() ==> crate::moves::move_from_available(
                #[trigger] r@[k],
                available@,
                level,
            ),
{
    let mut r: Vec<MonsterMove> = Vec::new();
    let mut i: usize = 0;
    while i < available.len()
        invariant
            i <= available@.len(),
            forall|k: int|
                0 <= k < r@.len() ==> crate::moves::move_from_available(
                    #[trigger] r@[k],
                    available@,
                    level,
                ),
        decreases available@.len() - i,
    {
        let (move_id, level_learned) = available[i];
        if level_learned <= level {
            let ghost jj = i as int;
            let mv = MonsterMove { id: move_id, pp_remaining: 20 };
            r.push(mv);
            proof {
                assert(available@[jj].0 == move_id && available@[jj].1 <= level);
                assert(crate::moves::move_from_available(mv, available@, level));
            }
        }
        i = i + 1;
    }
    r
}

impl Nature {
    /// A uniformly drawn nature.
    pub fn random() -> (n: Nature) {
        let k = random_below(25);
        if k == 0 {
            Nature::Hardy
        } else if k == 1 {
            Nature::Lonely
        } else if k == 2 {
            Nature::Brave
        } else if k == 3 {
            Nature::Adamant
        } else if k == 4 {
            Nature::Naughty
        } else if k == 5 {
            Nature::Bold
        } else if k == 6 {
            Nature::Docile
        } else if k == 7 {
            Nature::Relaxed
        } else if k == 8 {
            Nature::Impish
        } else if k == 9 {
            Nature::Lax
        } else if k == 10 {
            Nature::Timid
        } else if k == 11 {
            Nature::Hasty
        } else if k == 12 {
            Nature::Serious
        } else if k == 13 {
            Nature::Jolly
        } else if k == 14 {
            Nature::Naive
        } else if k == 15 {
            Nature::Modest
        } else if k == 16 {
            Nature::Mild
        } else if k == 17 {
            Nature::Quiet
        } else if k == 18 {
            Nature::Bashful
        } else if k == 19 {
            Nature::Rash
        } else if k == 20 {
            Nature::Calm
        } else if k == 21 {
            Nature::Gentle
        } else if k == 22 {
            Nature::Sassy
        } else if k == 23 {
            Nature::Careful
        } else {
            Nature::Quirky
        }
    }
}

/// First template with the given id, if any.
pub open spec fn spec_find_template(templates: Seq<MonsterTemplate>, id: u32) -> Option<int>
    decreases templates.len(),
{
    if templates.len() == 0 {
        None
    } else if templates[0].id == id {
        Some(0)
    } else {
        match spec_find_template(templates.skip(1), id) {
            Some(i) => Some(i + 1),
            None => None,
        }
    }
}

/// Static repository of monster templates.
#[derive(Debug, Clone)]
pub struct MonsterTemplateRepository {
    pub templates: Vec<MonsterTemplate>,
}

impl MonsterTemplateRepository {
    /// Every template well-formed.
    pub open spec fn wf(&self) -> bool {
        forall|i: int| 0 <= i < self.templates@.len() ==> (#[trigger] self.templates@[i]).wf()
    }

    /// A repository over the given templates.
    pub fn new(templates: Vec<MonsterTemplate>) -> (repo: MonsterTemplateRepository)
        requires
            forall|i: int| 0 <= i < templates@.len() ==> (#[trigger] templates@[i]).wf(),
        ensures
            repo.wf(),
            repo.templates == templates,
    {
        MonsterTemplateRepository { templates }
    }

    /// The template with the given id, if the repository holds one.
    pub fn get_template(&self, template_id: u32) -> (t: Option<&MonsterTemplate>)
        ensures
            match t {
                Some(data) => {
                    &&& spec_find_template(self.templates@, template_id) is Some
                    &&& *data == self.templates@[spec_find_template(
                        self.templates@,
                        template_id,
                    ).unwrap()]
                    &&& data.id == template_id
                },
                None => spec_find_template(self.templates@, template_id) is None,
            },
            self.wf() && t is Some ==> t.unwrap().wf(),
    {
        let mut i: usize = 0;
        proof {
            assert(self.templates@.skip(0) =~= self.templates@);
        }
        while i < self.templates.len()
            invariant
                i <= self.templates@.len(),
                forall|j: int| 0 <= j < i ==> self.templates@[j].id != template_id,
                spec_find_template(self.templates@, template_id) == match spec_find_template(
                    self.templates@.skip(i as int),
                    template_id,
                ) {
                    Some(k) => Some(k + i),
                    None => None::<int>,
                },
            decreases self.templates@.len() - i,
        {
            if self.templates[i].id == template_id {
                proof {
                    assert(self.templates@.skip(i as int)[0] == self.templates@[i as int]);
                }
                return Some(&self.templates[i]);
            }
            proof {
                assert(self.templates@.skip(i as int).skip(1) =~= self.templates@.skip(i as int + 1));
                assert(self.templates@.skip(i as int)[0] == self.templates@[i as int]);
            }
            i = i + 1;
        }
        proof {
            assert(self.templates@.skip(i as int).len() == 0);
        }
        None
    }

    /// The total experience a level costs under a growth rate, by the
    /// classic cubic curves; the medium-slow curve is floored at zero
    /// where its polynomial dips negative at the lowest levels.
    pub fn get_max_exp_for_level(&self, template_id: u32, level: u32) -> (r: u64)
        requires
            level <= 100,
        ensures
            match spec_find_template(self.templates@, template_id) {
                Some(k) => r == spec_growth_exp(self.templates@[k].growth_rate, level),
                None => r == spec_growth_exp(GrowthRate::Medium, level),
            },
    {
        let rate = match self.get_template(template_id) {
            Some(t) => t.growth_rate,
            None => GrowthRate::Medium,
        };
        growth_exp(rate, level)
    }

    /// The experience gap between the current level and the next, floored
    /// at zero.
    pub fn get_exp_for_next_level(&self, template_id: u32, current_level: u32) -> (r: u64)
        requires
            current_level <= 99,
        ensures
            ({
                let rate = match spec_find_template(self.templates@, template_id) {
                    Some(k) => self.templates@[k].growth_rate,
                    None => GrowthRate::Medium,
                };
                if current_level == 0 {
                    r == spec_growth_exp(rate, 1)
                } else {
                    let cur = spec_growth_exp(rate, current_level);
                    let next = spec_growth_exp(rate, (current_level + 1) as u32);
                    r == if next >= cur {
                        (next - cur) as int
                    } else {
                        0
                    }
                }
            }),
    {
        if current_level == 0 {
            return self.get_max_exp_for_level(template_id, 1);
        }
        let current_total_exp = self.get_max_exp_for_level(template_id, current_level);
        let next: u32 = current_level + 1;
        let next_level_total_exp = self.get_max_exp_for_level(template_id, next);
        if next_level_total_exp >= current_total_exp {
            next_level_total_exp - current_total_exp
        } else {
            0
        }
    }
}

/// The classic cubic experience curves, as total experience at a level.
pub open spec fn spec_growth_exp(rate: GrowthRate, level: u32) -> u64 {
    let l = level as int;
    let cube = l * l * l;
    match rate {
        GrowthRate::Fast => (4 * cube / 5) as u64,
        GrowthRate::Medium => cube as u64,
        GrowthRate::MediumSlow => {
            let v = 6 * cube / 5 - 15 * (l * l) + 100 * l - 140;
            if v < 0 {
                0u64
            } else {
                v as u64
            }
        },
        GrowthRate::Slow => (5 * cube / 4) as u64,
    }
}

/// The computed curve value, within `u64`.
fn growth_exp(rate: GrowthRate, level: u32) -> (r: u64)
    requires
        level <= 100,
    ensures
        r == spec_growth_exp(rate, level),
{
    let l = level as u64;
    proof {
        assert(l * l <= 10000) by (nonlinear_arith)
            requires
                l <= 100,
        ;
        assert((l * l) * l <= 1000000) by (nonlinear_arith)
            requires
                l <= 100,
                l * l <= 10000,
        ;
    }
    let sq: u64 = l * l;
    let cube: u64 = sq * l;
    proof {
        assert(l * l * l == cube);
    }
    match rate {
        GrowthRate::Fast => 4 * cube / 5,
        GrowthRate::Medium => cube,
        GrowthRate::MediumSlow => {
            let cube6: u64 = 6 * cube / 5;
            let sq15: u64 = 15 * sq;
            let lin: u64 = 100 * l;
            let pos: u64 = cube6 + lin;
            let neg: u64 = sq15 + 140;
            if pos < neg {
                0
            } else {
                pos - neg
            }
        },
        GrowthRate::Slow => 5 * cube / 4,
    }
}

} // verus!
