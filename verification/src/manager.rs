//! The battle manager's pure decision logic: action validation, the
//! wild-side action choice, outcome determination at battle end, and the
//! conversions between persisted Pokémon records and battle state. The
//! concurrency shell — tables, locks, messaging — lives outside the
//! library and calls in with plain values.

use vstd::prelude::*;

use crate::monsters::{Monster, MonsterMove, MonsterTemplate};
use crate::state::{
    BattleEndReason, BattleMove, BattlePlayer, BattlePokemon, PlayerAction, PvPBattleOutcome,
    PvPBattleState, StatusCondition, WildBattleOutcome, WildBattleState,
};
use crate::stats::{calculate_stats, BattleStatModifiers, StatSet};

verus! {

/// A persisted, player-owned Pokémon record.
#[derive(Debug, Clone)]
pub struct Pokemon {
    pub id: String,
    pub template_id: u32,
    pub name: String,
    pub level: u32,
    pub exp: u64,
    pub max_exp: u64,
    pub current_hp: u32,
    pub ivs: StatSet<u8>,
    pub evs: StatSet<u16>,
    pub nature: crate::stats::Nature,
    pub capture_date: u64,
    pub moves: Vec<MonsterMove>,
    pub types: Vec<crate::moves::PokemonType>,
    pub ability: String,
    pub status_condition: Option<StatusCondition>,
}

impl Pokemon {
    /// Level in range and at most four types.
    pub open spec fn wf(&self) -> bool {
        &&& 1 <= self.level <= 100
        &&& self.types@.len() <= 4
    }
}

/// A partial update written back to the collection after a battle.
#[derive(Debug, Clone)]
pub struct PokemonUpdate {
    pub name: Option<String>,
    pub level: Option<u32>,
    pub exp: Option<u64>,
    pub max_exp: Option<u64>,
    pub current_hp: Option<u32>,
}

/// Checks a submitted wild-battle action against the current state:
/// rejected actions never mutate anything. A move needs a valid slot with
/// PP left; a switch needs a different, unfainted, in-range slot; items
/// and Run are always a valid choice.
pub fn validate_player_action(battle_state: &WildBattleState, action: &PlayerAction) -> (r: Result<
    (),
    String,
>)
    requires
        battle_state.wf(),
    ensures
        r is Ok <==> spec_action_valid(*battle_state, *action),
{
    match action {
        PlayerAction::UseMove { move_index } => {
            let idx = battle_state.player.active_pokemon_index;
            let active = &battle_state.player.team[idx];
            if *move_index >= active.moves.len() {
                return Err("Invalid move index".to_owned());
            }
            if active.moves[*move_index].current_pp == 0 {
                return Err("Move has no PP left".to_owned());
            }
            Ok(())
        },
        PlayerAction::SwitchPokemon { team_index } => {
            if *team_index >= battle_state.player.team.len() {
                return Err("Invalid team index for switch".to_owned());
            }
            if *team_index == battle_state.player.active_pokemon_index {
                return Err("Cannot switch to the already active Pokemon".to_owned());
            }
            if battle_state.player.team[*team_index].is_fainted {
                return Err("Cannot switch to a fainted Pokemon".to_owned());
            }
            Ok(())
        },
        PlayerAction::UseItem { .. } => Ok(()),
        PlayerAction::Run => Ok(()),
    }
}

/// Exactly when a submitted wild-battle action is accepted.
pub open spec fn spec_action_valid(state: WildBattleState, action: PlayerAction) -> bool {
    match action {
        PlayerAction::UseMove { move_index } => {
            &&& move_index < state.player.spec_active().moves@.len()
            &&& state.player.spec_active().moves@[move_index as int].current_pp > 0
        },
        PlayerAction::SwitchPokemon { team_index } => {
            &&& team_index < state.player.team@.len()
            &&& team_index != state.player.active_pokemon_index
            &&& !state.player.team@[team_index as int].is_fainted
        },
        PlayerAction::UseItem { .. } => true,
        PlayerAction::Run => true,
    }
}

/// The wild battle's outcome and end reason, in the stated priority:
/// disconnect, then the last capture attempt's success, then a wild
/// faint (victory), then a wiped player team (defeat), then an explicit
/// Run, and finally the deterministic "fled" fallback.
pub open spec fn spec_wild_outcome(state: WildBattleState, is_disconnect: bool) -> (
    WildBattleOutcome,
    BattleEndReason,
) {
    if is_disconnect {
        (WildBattleOutcome::PlayerDisconnected, BattleEndReason::PlayerDisconnected)
    } else if state.capture_attempts@.len() > 0 && state.capture_attempts@.last().success {
        (WildBattleOutcome::Captured, BattleEndReason::WildPokemonCaptured)
    } else if state.wild_pokemon.is_fainted {
        (WildBattleOutcome::Victory, BattleEndReason::WildPokemonDefeated)
    } else if state.player.spec_all_fainted() {
        (WildBattleOutcome::Defeat, BattleEndReason::AllPlayerPokemonFainted)
    } else if state.player_action matches Some(PlayerAction::Run) {
        (WildBattleOutcome::PlayerRan, BattleEndReason::PlayerRanAway)
    } else {
        (WildBattleOutcome::Fled, BattleEndReason::WildPokemonFled)
    }
}

/// Determines how a wild battle ended, by the stated outcome priority.
pub fn determine_wild_outcome(battle_state: &WildBattleState, is_disconnect: bool) -> (r: (
    WildBattleOutcome,
    BattleEndReason,
))
    requires
        battle_state.wf(),
    ensures
        r == spec_wild_outcome(*battle_state, is_disconnect),
{
    if is_disconnect {
        return (WildBattleOutcome::PlayerDisconnected, BattleEndReason::PlayerDisconnected);
    }
    let n = battle_state.capture_attempts.len();
    if n > 0 && battle_state.capture_attempts[n - 1].success {
        return (WildBattleOutcome::Captured, BattleEndReason::WildPokemonCaptured);
    }
    if battle_state.wild_pokemon.is_fainted {
        return (WildBattleOutcome::Victory, BattleEndReason::WildPokemonDefeated);
    }
    if battle_state.player.all_fainted() {
        return (WildBattleOutcome::Defeat, BattleEndReason::AllPlayerPokemonFainted);
    }
    if matches!(&battle_state.player_action, Some(PlayerAction::Run)) {
        return (WildBattleOutcome::PlayerRan, BattleEndReason::PlayerRanAway);
    }
    (WildBattleOutcome::Fled, BattleEndReason::WildPokemonFled)
}

/// The two PvP outcomes at battle end: both teams down is a draw; one
/// team down decides victory and defeat; anything else is the defensive
/// draw fallback.
pub open spec fn spec_pvp_outcomes(state: PvPBattleState) -> (PvPBattleOutcome, PvPBattleOutcome) {
    let p1_down = state.player1.spec_all_fainted();
    let p2_down = state.player2.spec_all_fainted();
    if p1_down && p2_down {
        (PvPBattleOutcome::Draw, PvPBattleOutcome::Draw)
    } else if p1_down {
        (PvPBattleOutcome::Defeat, PvPBattleOutcome::Victory)
    } else if p2_down {
        (PvPBattleOutcome::Victory, PvPBattleOutcome::Defeat)
    } else {
        (PvPBattleOutcome::Draw, PvPBattleOutcome::Draw)
    }
}

/// Determines both players' outcomes when a PvP battle has finished.
pub fn determine_pvp_outcomes(battle_state: &PvPBattleState) -> (r: (
    PvPBattleOutcome,
    PvPBattleOutcome,
))
    requires
        battle_state.wf(),
    ensures
        r == spec_pvp_outcomes(*battle_state),
{
    let p1_down = battle_state.player1.all_fainted();
    let p2_down = battle_state.player2.all_fainted();
    if p1_down && p2_down {
        (PvPBattleOutcome::Draw, PvPBattleOutcome::Draw)
    } else if p1_down {
        (PvPBattleOutcome::Defeat, PvPBattleOutcome::Victory)
    } else if p2_down {
        (PvPBattleOutcome::Victory, PvPBattleOutcome::Defeat)
    } else {
        (PvPBattleOutcome::Draw, PvPBattleOutcome::Draw)
    }
}

/// Maps a PvP outcome onto the wild outcome vocabulary of the battle-end
/// message.
pub fn convert_pvp_outcome_to_wild(outcome: PvPBattleOutcome) -> (r: WildBattleOutcome)
    ensures
        r == match outcome {
            PvPBattleOutcome::Victory => WildBattleOutcome::Victory,
            PvPBattleOutcome::Defeat => WildBattleOutcome::Defeat,
            PvPBattleOutcome::Surrender => WildBattleOutcome::PlayerRan,
            PvPBattleOutcome::OpponentSurrendered => WildBattleOutcome::Victory,
            PvPBattleOutcome::Disconnected => WildBattleOutcome::PlayerDisconnected,
            PvPBattleOutcome::OpponentDisconnected => WildBattleOutcome::Victory,
            PvPBattleOutcome::Draw => WildBattleOutcome::Defeat,
        },
{
    match outcome {
        PvPBattleOutcome::Victory => WildBattleOutcome::Victory,
        PvPBattleOutcome::Defeat => WildBattleOutcome::Defeat,
        PvPBattleOutcome::Surrender => WildBattleOutcome::PlayerRan,
        PvPBattleOutcome::OpponentSurrendered => WildBattleOutcome::Victory,
        PvPBattleOutcome::Disconnected => WildBattleOutcome::PlayerDisconnected,
        PvPBattleOutcome::OpponentDisconnected => WildBattleOutcome::Victory,
        PvPBattleOutcome::Draw => WildBattleOutcome::Defeat,
    }
}

/// Experience from defeating a wild Pokémon: ceil(base * level / 7),
/// scaled by the growth-rate modifier (4/5, 1, 6/5 or 5/4), ceiling at
/// each step.
pub open spec fn spec_wild_exp_gain(
    base_exp: u32,
    level: u32,
    rate: crate::monsters::GrowthRate,
) -> u32 {
    let base_gain = (base_exp * level + 6) / 7;
    let v = match rate {
        crate::monsters::GrowthRate::Fast => (base_gain * 4 + 4) / 5,
        crate::monsters::GrowthRate::Medium => base_gain as int,
        crate::monsters::GrowthRate::MediumSlow => (base_gain * 6 + 4) / 5,
        crate::monsters::GrowthRate::Slow => (base_gain * 5 + 3) / 4,
    };
    v as u32
}

/// Calculate experience gained from defeating a wild Pokémon:
/// ceil(base experience times level over seven), scaled by the growth
/// rate's modifier with a ceiling.
pub fn calculate_exp_gain(base_exp: u32, level: u32, rate: crate::monsters::GrowthRate) -> (r: u32)
    requires
        level <= 100,
        base_exp <= 20000000,
    ensures
        r == spec_wild_exp_gain(base_exp, level, rate),
{
    proof {
        assert((base_exp as int) * (level as int) <= 20000000 * 100) by (nonlinear_arith)
            requires
                base_exp <= 20000000,
                level <= 100,
        ;
    }
    let base_gain: u64 = ((base_exp as u64) * (level as u64) + 6) / 7;
    let v: u64 = match rate {
        crate::monsters::GrowthRate::Fast => (base_gain * 4 + 4) / 5,
        crate::monsters::GrowthRate::Medium => base_gain,
        crate::monsters::GrowthRate::MediumSlow => (base_gain * 6 + 4) / 5,
        crate::monsters::GrowthRate::Slow => (base_gain * 5 + 3) / 4,
    };
    v as u32
}

/// The battle Pokémon a persisted record converts into: stats from the
/// calculator at the record's level, HP carried over, status carried
/// over, fresh battle bookkeeping.
pub fn convert_player_pokemon_to_battle_pokemon(
    pokemon: &Pokemon,
    position: usize,
    template: &MonsterTemplate,
    move_repository: Option<&MoveRepository>,
) -> (bp: BattlePokemon)
    requires
        pokemon.wf(),
        template.wf(),
    ensures
        bp.template_id == pokemon.template_id,
        bp.name == pokemon.name,
        bp.level == pokemon.level,
        bp.instance_id == pokemon.id,
        bp.exp == pokemon.exp,
        bp.max_exp == pokemon.max_exp,
        bp.status == pokemon.status_condition,
        bp.base_exp == template.base_experience,
        bp.position == position,
        bp.is_wild == false,
        bp.max_hp == bp.calculated_stats.hp,
        bp.calculated_stats == crate::stats::spec_calculated_stats(
            template.base_stats,
            pokemon.level,
            pokemon.ivs,
            pokemon.evs,
            pokemon.nature,
        ),
        // HP is carried over, capped at the calculated maximum
        bp.current_hp == if pokemon.current_hp <= bp.max_hp {
            pokemon.current_hp
        } else {
            bp.max_hp
        },
        bp.is_fainted == (pokemon.current_hp == 0),
        bp.moves@.len() == pokemon.moves@.len(),
        forall|i: int|
            0 <= i < bp.moves@.len() ==> (#[trigger] bp.moves@[i]).move_id
                == pokemon.moves@[i].id && bp.moves@[i].current_pp == pokemon.moves@[i].pp_remaining,
        bp.stat_modifiers == BattleStatModifiers::spec_default(),
        bp.wf(),
{
    let calculated_stats = calculate_stats(
        &template.base_stats,
        pokemon.level,
        &pokemon.ivs,
        &pokemon.evs,
        &pokemon.nature,
    );

    let mut battle_moves: Vec<BattleMove> = Vec::new();
    let mut i: usize = 0;
    while i < pokemon.moves.len()
        invariant
            i <= pokemon.moves@.len(),
            battle_moves@.len() == i,
            forall|j: int|
                0 <= j < i ==> (#[trigger] battle_moves@[j]).move_id == pokemon.moves@[j].id
                    && battle_moves@[j].current_pp == pokemon.moves@[j].pp_remaining,
        decreases pokemon.moves@.len() - i,
    {
        let m = pokemon.moves[i];
        let max_pp: u8 = match move_repository {
            Some(repo) => match repo.get_move(m.id) {
                Some(data) => data.pp,
                None => 20,
            },
            None => 20,
        };
        battle_moves.push(BattleMove { move_id: m.id, current_pp: m.pp_remaining, max_pp });
        i = i + 1;
    }

    let max_hp = calculated_stats.hp;
    let current_hp = if pokemon.current_hp <= max_hp {
        pokemon.current_hp
    } else {
        max_hp
    };

    BattlePokemon {
        template_id: pokemon.template_id,
        name: pokemon.name.clone(),
        level: pokemon.level,
        calculated_stats,
        pokemon_types: crate::state::clone_vec_copy(&pokemon.types),
        ability: pokemon.ability.clone(),
        moves: battle_moves,
        ivs: pokemon.ivs,
        evs: pokemon.evs,
        nature: pokemon.nature,
        current_hp,
        max_hp,
        status: pokemon.status_condition,
        status_turns: 0,
        volatile_statuses: Vec::new(),
        stat_modifiers: BattleStatModifiers::default(),
        is_fainted: pokemon.current_hp == 0,
        position,
        is_wild: false,
        instance_id: pokemon.id.clone(),
        base_exp: template.base_experience,
        exp: pokemon.exp,
        max_exp: pokemon.max_exp,
    }
}

use crate::moves::MoveRepository;

/// The battle Pokémon a wild monster snapshot converts into: its own
/// calculated stats and HP carried over, wild flag set, no experience.
pub fn convert_wild_monster_to_battle_pokemon(
    monster: &Monster,
    template: &MonsterTemplate,
    move_repository: Option<&MoveRepository>,
) -> (bp: BattlePokemon)
    requires
        monster.wf(),
        template.wf(),
    ensures
        bp.template_id == monster.template_id,
        bp.name == monster.name,
        bp.level == monster.level,
        bp.instance_id == monster.instance_id,
        bp.current_hp == monster.current_hp,
        bp.max_hp == monster.calculated_stats.hp,
        bp.calculated_stats == monster.calculated_stats,
        bp.status == monster.status_condition,
        bp.is_wild == true,
        bp.position == 0,
        bp.exp == 0,
        bp.max_exp == 0,
        bp.base_exp == template.base_experience,
        bp.is_fainted == (monster.current_hp == 0),
        bp.wf(),
{
    let mut battle_moves: Vec<BattleMove> = Vec::new();
    let mut i: usize = 0;
    while i < monster.moves.len()
        invariant
            i <= monster.moves@.len(),
            battle_moves@.len() == i,
        decreases monster.moves@.len() - i,
    {
        let m = monster.moves[i];
        let max_pp: u8 = match move_repository {
            Some(repo) => match repo.get_move(m.id) {
                Some(data) => data.pp,
                None => 20,
            },
            None => 20,
        };
        battle_moves.push(BattleMove { move_id: m.id, current_pp: m.pp_remaining, max_pp });
        i = i + 1;
    }

    BattlePokemon {
        template_id: monster.template_id,
        name: monster.name.clone(),
        level: monster.level,
        calculated_stats: monster.calculated_stats,
        pokemon_types: crate::state::clone_vec_copy(&monster.types),
        ability: monster.ability.clone(),
        moves: battle_moves,
        ivs: monster.ivs,
        evs: monster.evs,
        nature: monster.nature,
        current_hp: monster.current_hp,
        max_hp: monster.calculated_stats.hp,
        status: monster.status_condition,
        status_turns: 0,
        volatile_statuses: Vec::new(),
        stat_modifiers: BattleStatModifiers::default(),
        is_fainted: monster.current_hp == 0,
        position: 0,
        is_wild: true,
        instance_id: monster.instance_id.clone(),
        base_exp: template.base_experience,
        exp: 0,
        max_exp: 0,
    }
}

/// The write-back a battle Pokémon produces at battle end: level,
/// experience, next threshold and (restored) HP.
pub fn battle_pokemon_to_update(bp: &BattlePokemon) -> (u: PokemonUpdate)
    ensures
        u.name is None,
        u.level == Some(bp.level),
        u.exp == Some(bp.exp),
        u.max_exp == Some(bp.max_exp),
        u.current_hp == Some(bp.max_hp),
{
    PokemonUpdate {
        name: None,
        level: Some(bp.level),
        exp: Some(bp.exp),
        max_exp: Some(bp.max_exp),
        current_hp: Some(bp.max_hp),
    }
}

/// Round trip: converting a persisted record in and reading the persisted
/// fields back out changes nothing — level, experience, HP and status all
/// carry over exactly whenever the record's HP respects the calculated
/// maximum.
pub proof fn lemma_conversion_round_trip(
    pokemon: Pokemon,
    position: usize,
    template: MonsterTemplate,
    bp: BattlePokemon,
)
    requires
        pokemon.wf(),
        template.wf(),
        // what convert_player_pokemon_to_battle_pokemon ensures
        bp.level == pokemon.level,
        bp.exp == pokemon.exp,
        bp.max_exp == pokemon.max_exp,
        bp.status == pokemon.status_condition,
        bp.current_hp == if pokemon.current_hp <= bp.max_hp {
            pokemon.current_hp
        } else {
            bp.max_hp
        },
        pokemon.current_hp <= bp.max_hp,
    ensures
        bp.level == pokemon.level && bp.exp == pokemon.exp && bp.max_exp == pokemon.max_exp
            && bp.current_hp == pokemon.current_hp && bp.status == pokemon.status_condition,
{
}

} // verus!
