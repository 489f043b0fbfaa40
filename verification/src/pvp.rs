//! The PvP turn resolver: item/switch/move/run precedence (Run acts first
//! as implemented — a preserved quirk), speed ordering with a coin-flip
//! tie, experience awards with bounded level-ups, end-of-turn Burn, and
//! the phase resolution over every faint combination.

use vstd::prelude::*;

use crate::damage::spec_damage_result;
use crate::external::random_below;
use crate::monsters::MonsterTemplateRepository;
use crate::moves::MoveRepository;
use crate::state::{
    BattleEntityRef, BattleEvent, BattleMessage, BattlePokemon, BattlePvPPhase, PlayerAction,
    PvPBattleState, PvPTurnOrder, StatusCondition,
};
use crate::stats::{calculate_stats, BaseStats, MAX_BASE_STAT};

verus! {

/// A faint flag, once set, is never unset; team lengths never change.
pub open spec fn pvp_faints_monotone(pre: PvPBattleState, post: PvPBattleState) -> bool {
    &&& post.player1.team@.len() == pre.player1.team@.len()
    &&& post.player2.team@.len() == pre.player2.team@.len()
    &&& forall|i: int|
        0 <= i < pre.player1.team@.len() && (#[trigger] pre.player1.team@[i]).is_fainted
            ==> post.player1.team@[i].is_fainted
    &&& forall|i: int|
        0 <= i < pre.player2.team@.len() && (#[trigger] pre.player2.team@[i]).is_fainted
            ==> post.player2.team@[i].is_fainted
}

/// `a + b`, capped at the largest u64.
pub open spec fn spec_sat_add_u64(a: u64, b: u64) -> u64 {
    if a + b > u64::MAX {
        u64::MAX
    } else {
        (a + b) as u64
    }
}

/// Faint monotonicity composes across steps.
pub proof fn lemma_pvp_monotone_trans(a: PvPBattleState, b: PvPBattleState, c: PvPBattleState)
    requires
        pvp_faints_monotone(a, b),
        pvp_faints_monotone(b, c),
    ensures
        pvp_faints_monotone(a, c),
{
}

/// The action categories the turn-order precedence compares.
pub open spec fn spec_is_item(a: Option<PlayerAction>) -> bool {
    a matches Some(PlayerAction::UseItem { .. })
}

pub open spec fn spec_is_switch(a: Option<PlayerAction>) -> bool {
    a matches Some(PlayerAction::SwitchPokemon { .. })
}

pub open spec fn spec_is_move(a: Option<PlayerAction>) -> bool {
    a matches Some(PlayerAction::UseMove { .. })
}

pub open spec fn spec_is_run(a: Option<PlayerAction>) -> bool {
    a matches Some(PlayerAction::Run)
}

/// The precedence the resolver applies: items first, then switches, then
/// moves by speed (a tie falls to the coin), with Run acting first against
/// a move — the preserved quirk — and speed (ties to player one) deciding
/// everything else.
pub open spec fn spec_pvp_turn_order(state: PvPBattleState, coin_player1_first: bool) -> PvPTurnOrder {
    let a1 = state.player1_action;
    let a2 = state.player2_action;
    let s1 = state.player1.spec_active().calculated_stats.speed;
    let s2 = state.player2.spec_active().calculated_stats.speed;
    if spec_is_item(a1) && !spec_is_item(a2) {
        PvPTurnOrder::Player1First
    } else if spec_is_item(a2) && !spec_is_item(a1) {
        PvPTurnOrder::Player2First
    } else if spec_is_switch(a1) && !spec_is_switch(a2) && !spec_is_item(a2) {
        PvPTurnOrder::Player1First
    } else if spec_is_switch(a2) && !spec_is_switch(a1) && !spec_is_item(a1) {
        PvPTurnOrder::Player2First
    } else if spec_is_move(a1) && spec_is_move(a2) {
        if s1 > s2 {
            PvPTurnOrder::Player1First
        } else if s2 > s1 {
            PvPTurnOrder::Player2First
        } else if coin_player1_first {
            PvPTurnOrder::Player1First
        } else {
            PvPTurnOrder::Player2First
        }
    } else if spec_is_move(a1) && spec_is_run(a2) {
        PvPTurnOrder::Player2First
    } else if spec_is_move(a2) && spec_is_run(a1) {
        PvPTurnOrder::Player1First
    } else if s1 >= s2 {
        PvPTurnOrder::Player1First
    } else {
        PvPTurnOrder::Player2First
    }
}

/// When both actions are moves with no item or switch in play, the
/// strictly faster side always resolves first, and a speed tie yields one
/// of exactly the two orders, by the coin.
pub proof fn lemma_faster_mover_resolves_first(state: PvPBattleState, coin: bool)
    requires
        state.wf(),
        spec_is_move(state.player1_action),
        spec_is_move(state.player2_action),
    ensures
        state.player1.spec_active().calculated_stats.speed
            > state.player2.spec_active().calculated_stats.speed ==> spec_pvp_turn_order(
            state,
            coin,
        ) == PvPTurnOrder::Player1First,
        state.player2.spec_active().calculated_stats.speed
            > state.player1.spec_active().calculated_stats.speed ==> spec_pvp_turn_order(
            state,
            coin,
        ) == PvPTurnOrder::Player2First,
        state.player1.spec_active().calculated_stats.speed
            == state.player2.spec_active().calculated_stats.speed ==> (spec_pvp_turn_order(
            state,
            coin,
        ) == PvPTurnOrder::Player1First || spec_pvp_turn_order(state, coin)
            == PvPTurnOrder::Player2First),
{
}

/// Determines the turn order from the submitted actions and speeds; the
/// coin decides only a move-against-move speed tie.
pub fn determine_pvp_turn_order(state: &PvPBattleState, coin_player1_first: bool) -> (o:
    PvPTurnOrder)
    requires
        state.wf(),
    ensures
        o == spec_pvp_turn_order(*state, coin_player1_first),
{
    let a1_item = matches!(&state.player1_action, Some(PlayerAction::UseItem { .. }));
    let a2_item = matches!(&state.player2_action, Some(PlayerAction::UseItem { .. }));
    let a1_switch = matches!(&state.player1_action, Some(PlayerAction::SwitchPokemon { .. }));
    let a2_switch = matches!(&state.player2_action, Some(PlayerAction::SwitchPokemon { .. }));
    let a1_move = matches!(&state.player1_action, Some(PlayerAction::UseMove { .. }));
    let a2_move = matches!(&state.player2_action, Some(PlayerAction::UseMove { .. }));
    let a1_run = matches!(&state.player1_action, Some(PlayerAction::Run));
    let a2_run = matches!(&state.player2_action, Some(PlayerAction::Run));
    let i1 = state.player1.active_pokemon_index;
    let i2 = state.player2.active_pokemon_index;
    let s1 = state.player1.team[i1].calculated_stats.speed;
    let s2 = state.player2.team[i2].calculated_stats.speed;

    if a1_item && !a2_item {
        PvPTurnOrder::Player1First
    } else if a2_item && !a1_item {
        PvPTurnOrder::Player2First
    } else if a1_switch && !a2_switch && !a2_item {
        PvPTurnOrder::Player1First
    } else if a2_switch && !a1_switch && !a1_item {
        PvPTurnOrder::Player2First
    } else if a1_move && a2_move {
        if s1 > s2 {
            PvPTurnOrder::Player1First
        } else if s2 > s1 {
            PvPTurnOrder::Player2First
        } else if coin_player1_first {
            PvPTurnOrder::Player1First
        } else {
            PvPTurnOrder::Player2First
        }
    } else if a1_move && a2_run {
        PvPTurnOrder::Player2First
    } else if a2_move && a1_run {
        PvPTurnOrder::Player1First
    } else if s1 >= s2 {
        PvPTurnOrder::Player1First
    } else {
        PvPTurnOrder::Player2First
    }
}

/// Experience from defeating a Pokémon in PvP: the trainer formula
/// floor(base * 3/2 * level / 7), never below 50.
pub open spec fn spec_pvp_exp_gain(base_exp: u32, level: u32) -> u64 {
    let e = 3 * base_exp * level / 14;
    if e < 50 {
        50u64
    } else {
        e as u64
    }
}

/// Calculate experience gained from defeating an opponent's Pokémon in
/// PvP battles: floor(base_exp * 1.5 * level / 7), floored at 50.
pub fn calculate_pvp_exp_gain(fainted_pokemon_base_exp: u32, fainted_pokemon_level: u32) -> (r: u64)
    requires
        fainted_pokemon_level <= 100,
    ensures
        r == spec_pvp_exp_gain(fainted_pokemon_base_exp, fainted_pokemon_level),
        r >= 50,
{
    proof {
        assert(3 * (fainted_pokemon_base_exp as int) * (fainted_pokemon_level as int) <= 3
            * 0xffff_ffff * 100) by (nonlinear_arith)
            requires
                fainted_pokemon_base_exp <= 0xffff_ffffu32,
                fainted_pokemon_level <= 100,
        ;
    }
    let wide: u64 = 3 * (fainted_pokemon_base_exp as u64) * (fainted_pokemon_level as u64) / 14;
    if wide < 50 {
        50
    } else {
        wide
    }
}

/// The experience threshold of one level: the base experience grown by a
/// fifth per level, floored at each step, saturating at the integer
/// ceiling.
pub open spec fn spec_exp_threshold(base_exp: u32, level: nat) -> u64
    decreases level,
{
    if level == 0 {
        base_exp as u64
    } else {
        let prev = spec_exp_threshold(base_exp, (level - 1) as nat) as int;
        let next = prev * 6 / 5;
        if next > u64::MAX {
            u64::MAX
        } else {
            next as u64
        }
    }
}

/// The threshold computed step by step.
pub fn exp_threshold(base_exp: u32, level: u32) -> (r: u64)
    requires
        level <= 100,
    ensures
        r == spec_exp_threshold(base_exp, level as nat),
{
    let mut t: u64 = base_exp as u64;
    let mut l: u32 = 0;
    while l < level
        invariant
            l <= level,
            t == spec_exp_threshold(base_exp, l as nat),
        decreases level - l,
    {
        let wide: u128 = t as u128 * 6 / 5;
        t = if wide > u64::MAX as u128 {
            u64::MAX
        } else {
            wide as u64
        };
        l = l + 1;
    }
    t
}

/// Level up a battle Pokémon on gained experience: while the experience
/// reaches the threshold and the level is under 100, the level rises,
/// stats are recalculated, the HP gain is added to current HP, and the
/// next threshold is set. Returns the number of levels gained.
pub fn level_up_battle_pokemon(
    pokemon: &mut BattlePokemon,
    exp_gained: u64,
    base_stats: &BaseStats,
) -> (levels_gained: u32)
    requires
        old(pokemon).wf(),
        old(pokemon).exp + exp_gained <= u64::MAX,
        base_stats.hp <= MAX_BASE_STAT,
        base_stats.attack <= MAX_BASE_STAT,
        base_stats.defense <= MAX_BASE_STAT,
        base_stats.special_attack <= MAX_BASE_STAT,
        base_stats.special_defense <= MAX_BASE_STAT,
        base_stats.speed <= MAX_BASE_STAT,
    ensures
        final(pokemon).wf(),
        final(pokemon).exp == old(pokemon).exp + exp_gained,
        final(pokemon).level >= old(pokemon).level,
        final(pokemon).level <= 100,
        levels_gained == final(pokemon).level - old(pokemon).level,
        // the loop stops only at the cap or under the threshold
        final(pokemon).level < 100 ==> final(pokemon).exp < final(pokemon).max_exp,
        // identity is kept
        final(pokemon).name == old(pokemon).name,
        final(pokemon).instance_id == old(pokemon).instance_id,
        final(pokemon).template_id == old(pokemon).template_id,
        final(pokemon).base_exp == old(pokemon).base_exp,
        final(pokemon).status == old(pokemon).status,
        final(pokemon).moves@ == old(pokemon).moves@,
        final(pokemon).is_fainted == old(pokemon).is_fainted,
        final(pokemon).position == old(pokemon).position,
        final(pokemon).is_wild == old(pokemon).is_wild,
{
    let mut levels_gained: u32 = 0;
    pokemon.exp = pokemon.exp + exp_gained;

    while pokemon.exp >= pokemon.max_exp && pokemon.level < 100
        invariant
            pokemon.wf(),
            pokemon.exp == old(pokemon).exp + exp_gained,
            pokemon.level >= old(pokemon).level,
            pokemon.level <= 100,
            levels_gained == pokemon.level - old(pokemon).level,
            pokemon.name == old(pokemon).name,
            pokemon.instance_id == old(pokemon).instance_id,
            pokemon.template_id == old(pokemon).template_id,
            pokemon.base_exp == old(pokemon).base_exp,
            pokemon.status == old(pokemon).status,
            pokemon.moves@ == old(pokemon).moves@,
            pokemon.is_fainted == old(pokemon).is_fainted,
            pokemon.position == old(pokemon).position,
            pokemon.is_wild == old(pokemon).is_wild,
            base_stats.hp <= MAX_BASE_STAT,
            base_stats.attack <= MAX_BASE_STAT,
            base_stats.defense <= MAX_BASE_STAT,
            base_stats.special_attack <= MAX_BASE_STAT,
            base_stats.special_defense <= MAX_BASE_STAT,
            base_stats.speed <= MAX_BASE_STAT,
        decreases 100 - pokemon.level,
    {
        pokemon.level = pokemon.level + 1;
        levels_gained = levels_gained + 1;

        let old_max_hp = pokemon.max_hp;
        let stats = calculate_stats(
            base_stats,
            pokemon.level,
            &pokemon.ivs,
            &pokemon.evs,
            &pokemon.nature,
        );
        pokemon.calculated_stats = stats;
        pokemon.max_hp = stats.hp;
        let hp_gained = if stats.hp >= old_max_hp {
            stats.hp - old_max_hp
        } else {
            0
        };
        let raised: u64 = pokemon.current_hp as u64 + hp_gained as u64;
        pokemon.current_hp = if raised > pokemon.max_hp as u64 {
            pokemon.max_hp
        } else {
            raised as u32
        };
        pokemon.max_exp = exp_threshold(pokemon.base_exp, pokemon.level);
    }
    levels_gained
}

/// Execute surrender in a PvP battle: the battle finishes at once in the
/// opponent's favour, with no stat side effects.
pub fn execute_pvp_surrender(
    battle_state: &mut PvPBattleState,
    battle_events: &mut Vec<BattleEvent>,
    source: BattleEntityRef,
)
    requires
        old(battle_state).wf(),
        source is Player1 || source is Player2,
    ensures
        final(battle_state).wf(),
        *final(battle_state) == (PvPBattleState {
            battle_phase: BattlePvPPhase::Finished,
            ..*old(battle_state)
        }),
        final(battle_events)@.len() == old(battle_events)@.len() + 2,
{
    let player_name = match source {
        BattleEntityRef::Player1 { .. } => battle_state.player1.name.clone(),
        _ => battle_state.player2.name.clone(),
    };
    let player1_won = match source {
        BattleEntityRef::Player1 { .. } => false,
        _ => true,
    };
    battle_events.push(
        BattleEvent::GenericMessage {
            message: BattleMessage::SurrenderAnnounced { player: player_name },
        },
    );
    battle_state.battle_phase = BattlePvPPhase::Finished;
    battle_events.push(
        BattleEvent::GenericMessage { message: BattleMessage::SurrenderOutcome { player1_won } },
    );
}

/// The Pokémon a PvP entity reference addresses.
pub open spec fn spec_pvp_pokemon_at(state: PvPBattleState, e: BattleEntityRef) -> BattlePokemon {
    match e {
        BattleEntityRef::Player1 { team_index } => state.player1.team@[team_index as int],
        BattleEntityRef::Player2 { team_index } => state.player2.team@[team_index as int],
        _ => state.player1.team@[0],
    }
}

/// `post` is `pre` with exactly the addressed Pokémon replaced by `p`.
pub open spec fn pvp_updated_at(
    pre: PvPBattleState,
    post: PvPBattleState,
    e: BattleEntityRef,
    p: BattlePokemon,
) -> bool {
    match e {
        BattleEntityRef::Player1 { team_index } => {
            &&& post.player1.team@ == pre.player1.team@.update(team_index as int, p)
            &&& post.player1 == (crate::state::BattlePlayer { team: post.player1.team, ..pre.player1 })
            &&& post == (PvPBattleState { player1: post.player1, ..pre })
        },
        BattleEntityRef::Player2 { team_index } => {
            &&& post.player2.team@ == pre.player2.team@.update(team_index as int, p)
            &&& post.player2 == (crate::state::BattlePlayer { team: post.player2.team, ..pre.player2 })
            &&& post == (PvPBattleState { player2: post.player2, ..pre })
        },
        _ => false,
    }
}

/// The entity addresses a team slot this PvP battle has.
pub open spec fn pvp_entity_ok(state: PvPBattleState, e: BattleEntityRef) -> bool {
    match e {
        BattleEntityRef::Player1 { team_index } => team_index < state.player1.team@.len(),
        BattleEntityRef::Player2 { team_index } => team_index < state.player2.team@.len(),
        _ => false,
    }
}

/// Apply damage in a PvP battle: subtracts the damage floored at zero
/// (HP never underflows) from exactly the addressed Pokémon and emits
/// exactly one DamageDealt event with the resulting HP.
pub fn apply_pvp_damage(
    battle_state: &mut PvPBattleState,
    battle_events: &mut Vec<BattleEvent>,
    target: BattleEntityRef,
    damage: u32,
    effectiveness: crate::damage::Effectiveness,
    is_critical: bool,
)
    requires
        old(battle_state).wf(),
        pvp_entity_ok(*old(battle_state), target),
    ensures
        final(battle_state).wf(),
        pvp_faints_monotone(*old(battle_state), *final(battle_state)),
        ({
            let oldp = spec_pvp_pokemon_at(*old(battle_state), target);
            let newp = BattlePokemon {
                current_hp: crate::effects::spec_sat_sub(oldp.current_hp, damage),
                ..oldp
            };
            &&& pvp_updated_at(*old(battle_state), *final(battle_state), target, newp)
            &&& final(battle_events)@ == old(battle_events)@ + seq![
                BattleEvent::DamageDealt {
                    target,
                    damage,
                    new_hp: newp.current_hp,
                    max_hp: oldp.max_hp,
                    effectiveness,
                    is_critical,
                },
            ]
        }),
{
    match target {
        BattleEntityRef::Player1 { team_index } => {
            let old_hp = battle_state.player1.team[team_index].current_hp;
            let new_hp = if damage > old_hp {
                0
            } else {
                old_hp - damage
            };
            battle_state.player1.team[team_index].current_hp = new_hp;
            let max_hp = battle_state.player1.team[team_index].max_hp;
            battle_events.push(
                BattleEvent::DamageDealt {
                    target,
                    damage,
                    new_hp,
                    max_hp,
                    effectiveness,
                    is_critical,
                },
            );
        },
        BattleEntityRef::Player2 { team_index } => {
            let old_hp = battle_state.player2.team[team_index].current_hp;
            let new_hp = if damage > old_hp {
                0
            } else {
                old_hp - damage
            };
            battle_state.player2.team[team_index].current_hp = new_hp;
            let max_hp = battle_state.player2.team[team_index].max_hp;
            battle_events.push(
                BattleEvent::DamageDealt {
                    target,
                    damage,
                    new_hp,
                    max_hp,
                    effectiveness,
                    is_critical,
                },
            );
        },
        _ => {
            proof {
                assert(false);
            }
        },
    }
}

/// Check for battle end conditions in a PvP battle: the battle finishes
/// when either team has wholly fainted; both teams down is a draw, told
/// apart later by the outcome resolution.
pub fn check_pvp_battle_end(battle_state: &mut PvPBattleState)
    requires
        old(battle_state).wf(),
    ensures
        final(battle_state).wf(),
        *final(battle_state) == (PvPBattleState {
            battle_phase: final(battle_state).battle_phase,
            ..*old(battle_state)
        }),
        final(battle_state).battle_phase == if old(battle_state).player1.spec_all_fainted() || old(battle_state).player2.spec_all_fainted() {
            BattlePvPPhase::Finished
        } else {
            old(battle_state).battle_phase
        },
{
    let all_player1_fainted = battle_state.player1.all_fainted();
    let all_player2_fainted = battle_state.player2.all_fainted();
    if all_player1_fainted || all_player2_fainted {
        battle_state.battle_phase = BattlePvPPhase::Finished;
    }
}

/// Both actives fainting with no usable bench on either side ends the
/// battle, and the outcome resolution then calls it a draw.
pub proof fn lemma_simultaneous_faint_is_draw(state: PvPBattleState)
    requires
        state.wf(),
        state.player1.spec_all_fainted(),
        state.player2.spec_all_fainted(),
    ensures
        crate::manager::spec_pvp_outcomes(state) == (
        crate::state::PvPBattleOutcome::Draw,
        crate::state::PvPBattleOutcome::Draw,
        ),
{
}


/// The opposing active slot.
fn pvp_opponent_of(state: &PvPBattleState, source: BattleEntityRef) -> (r: BattleEntityRef)
    ensures
        source is Player1 ==> r == (BattleEntityRef::Player2 {
            team_index: state.player2.active_pokemon_index,
        }),
        source is Player2 || source is Player || source is Wild ==> r
            == (BattleEntityRef::Player1 { team_index: state.player1.active_pokemon_index }),
{
    match source {
        BattleEntityRef::Player1 { .. } => BattleEntityRef::Player2 {
            team_index: state.player2.active_pokemon_index,
        },
        _ => BattleEntityRef::Player1 { team_index: state.player1.active_pokemon_index },
    }
}

/// Execute a move in a PvP battle: a known move is announced, costs one
/// PP and deals the formula's damage to the opposing active; an unknown
/// move or slot does nothing.
#[verifier::rlimit(100)]
#[verifier::spinoff_prover]
fn execute_pvp_move(
    battle_state: &mut PvPBattleState,
    battle_events: &mut Vec<BattleEvent>,
    move_repository: Option<&MoveRepository>,
    source: BattleEntityRef,
    move_index: usize,
    is_critical: bool,
    random_factor: u32,
)
    requires
        old(battle_state).wf(),
        crate::wild::repo_ok(move_repository),
        pvp_entity_ok(*old(battle_state), source),
        85 <= random_factor <= 100,
    ensures
        final(battle_state).wf(),
        pvp_faints_monotone(*old(battle_state), *final(battle_state)),
        final(battle_state).battle_phase == old(battle_state).battle_phase,
        final(battle_state).player1.active_pokemon_index == old(battle_state).player1.active_pokemon_index,
        final(battle_state).player2.active_pokemon_index == old(battle_state).player2.active_pokemon_index,
        final(battle_state).player1_action == old(battle_state).player1_action,
        final(battle_state).player2_action == old(battle_state).player2_action,
        final(battle_state).turn_number == old(battle_state).turn_number,
        old(battle_events)@.is_prefix_of(final(battle_events)@),
        // a known move spends one PP and deals exactly the formula's
        // damage to the opposing active, with its three events; an
        // unknown move or slot changes nothing at all
        ({
            let src = spec_pvp_pokemon_at(*old(battle_state), source);
            let known = 0 <= move_index < src.moves@.len() && crate::wild::spec_move_lookup(
                crate::wild::spec_repo_of(move_repository),
                src.moves@[move_index as int].move_id,
            ) is Some;
            if !known {
                *final(battle_state) == *old(battle_state) && final(battle_events)@ == old(battle_events)@
            } else {
                let mid = src.moves@[move_index as int].move_id;
                let data = crate::wild::spec_move_lookup(
                    crate::wild::spec_repo_of(move_repository),
                    mid,
                ).unwrap();
                let tgt_ref = if source is Player1 {
                    BattleEntityRef::Player2 {
                        team_index: old(battle_state).player2.active_pokemon_index,
                    }
                } else {
                    BattleEntityRef::Player1 {
                        team_index: old(battle_state).player1.active_pokemon_index,
                    }
                };
                let tgt = spec_pvp_pokemon_at(*old(battle_state), tgt_ref);
                let r = spec_damage_result(
                    src.level,
                    src.calculated_stats,
                    src.pokemon_types@,
                    tgt.calculated_stats,
                    tgt.pokemon_types@,
                    data,
                    Some(crate::wild::spec_repo_of(move_repository).unwrap().type_chart),
                    is_critical,
                    random_factor,
                );
                let src_after = BattlePokemon {
                    moves: spec_pvp_pokemon_at(*final(battle_state), source).moves,
                    ..src
                };
                let tgt_after = BattlePokemon {
                    current_hp: crate::effects::spec_sat_sub(tgt.current_hp, r.0),
                    ..tgt
                };
                &&& spec_pvp_pokemon_at(*final(battle_state), source).moves@
                    == crate::wild::spec_moves_after_pp_spend(src.moves@, move_index as int)
                &&& spec_pvp_pokemon_at(*final(battle_state), source) == src_after
                &&& spec_pvp_pokemon_at(*final(battle_state), tgt_ref) == tgt_after
                &&& (if source is Player1 {
                    &&& final(battle_state).player1.team@ == old(battle_state).player1.team@.update(
                        source->Player1_team_index as int,
                        src_after,
                    )
                    &&& final(battle_state).player2.team@ == old(battle_state).player2.team@.update(
                        old(battle_state).player2.active_pokemon_index as int,
                        tgt_after,
                    )
                } else {
                    &&& final(battle_state).player2.team@ == old(battle_state).player2.team@.update(
                        source->Player2_team_index as int,
                        src_after,
                    )
                    &&& final(battle_state).player1.team@ == old(battle_state).player1.team@.update(
                        old(battle_state).player1.active_pokemon_index as int,
                        tgt_after,
                    )
                })
                &&& final(battle_state).player1 == (crate::state::BattlePlayer {
                    team: final(battle_state).player1.team,
                    ..old(battle_state).player1
                })
                &&& final(battle_state).player2 == (crate::state::BattlePlayer {
                    team: final(battle_state).player2.team,
                    ..old(battle_state).player2
                })
                &&& *final(battle_state) == (PvPBattleState {
                    player1: final(battle_state).player1,
                    player2: final(battle_state).player2,
                    ..*old(battle_state)
                })
                &&& final(battle_events)@ == old(battle_events)@ + seq![
                    BattleEvent::GenericMessage {
                        message: BattleMessage::MoveAnnounced {
                            user: src.name,
                            move_name: data.name,
                        },
                    },
                    BattleEvent::DamageDealt {
                        target: tgt_ref,
                        damage: r.0,
                        new_hp: crate::effects::spec_sat_sub(tgt.current_hp, r.0),
                        max_hp: tgt.max_hp,
                        effectiveness: r.1,
                        is_critical: r.2,
                    },
                    BattleEvent::MoveUsed {
                        source,
                        move_id: mid,
                        move_name: data.name,
                        target: tgt_ref,
                    },
                ]
            }
        }),
{
    // the chosen slot
    let slot = match source {
        BattleEntityRef::Player1 { team_index } => {
            let p = &battle_state.player1.team[team_index];
            if move_index < p.moves.len() {
                Some(p.moves[move_index])
            } else {
                None
            }
        },
        _ => {
            let team_index = match source {
                BattleEntityRef::Player2 { team_index } => team_index,
                _ => 0,
            };
            let p = &battle_state.player2.team[team_index];
            if move_index < p.moves.len() {
                Some(p.moves[move_index])
            } else {
                None
            }
        },
    };
    let move_id: u32 = match slot {
        Some(m) => m.move_id,
        None => {
            return ;
        },
    };
    let repo = match move_repository {
        Some(r) => r,
        None => {
            return ;
        },
    };
    let move_details = match repo.get_move(move_id) {
        Some(d) => d,
        None => {
            return ;
        },
    };
    let move_name = move_details.name.clone();

    let source_name = match source {
        BattleEntityRef::Player1 { team_index } => battle_state.player1.team[team_index].name.clone(),
        BattleEntityRef::Player2 { team_index } => battle_state.player2.team[team_index].name.clone(),
        _ => String::new(),
    };
    battle_events.push(
        BattleEvent::GenericMessage {
            message: BattleMessage::MoveAnnounced {
                user: source_name,
                move_name: move_name.clone(),
            },
        },
    );

    // spend one PP
    match source {
        BattleEntityRef::Player1 { team_index } => {
            if move_index < battle_state.player1.team[team_index].moves.len() {
                let pp = battle_state.player1.team[team_index].moves[move_index].current_pp;
                if pp > 0 {
                    battle_state.player1.team[team_index].moves[move_index].current_pp = pp - 1;
                }
            }
            proof {
                let src = spec_pvp_pokemon_at(*old(battle_state), source);
                assert(spec_pvp_pokemon_at(*battle_state, source).moves@
                    =~= crate::wild::spec_moves_after_pp_spend(src.moves@, move_index as int));
                assert(battle_state.player1.team@ =~= old(battle_state).player1.team@.update(
                    team_index as int,
                    BattlePokemon { moves: battle_state.player1.team@[team_index as int].moves, ..src },
                ));
            }
        },
        BattleEntityRef::Player2 { team_index } => {
            if move_index < battle_state.player2.team[team_index].moves.len() {
                let pp = battle_state.player2.team[team_index].moves[move_index].current_pp;
                if pp > 0 {
                    battle_state.player2.team[team_index].moves[move_index].current_pp = pp - 1;
                }
            }
            proof {
                let src = spec_pvp_pokemon_at(*old(battle_state), source);
                assert(spec_pvp_pokemon_at(*battle_state, source).moves@
                    =~= crate::wild::spec_moves_after_pp_spend(src.moves@, move_index as int));
                assert(battle_state.player2.team@ =~= old(battle_state).player2.team@.update(
                    team_index as int,
                    BattlePokemon { moves: battle_state.player2.team@[team_index as int].moves, ..src },
                ));
            }
        },
        _ => {},
    }

    let ghost mid = *battle_state;
    proof {
        assert(pvp_faints_monotone(*old(battle_state), mid));
    }

    let target = pvp_opponent_of(battle_state, source);

    // the numbers the formula reads
    let (source_level, source_stats, source_types) = match source {
        BattleEntityRef::Player1 { team_index } => {
            let p = &battle_state.player1.team[team_index];
            (p.level, p.calculated_stats, crate::state::clone_vec_copy(&p.pokemon_types))
        },
        _ => {
            let team_index = match source {
                BattleEntityRef::Player2 { team_index } => team_index,
                _ => 0,
            };
            let p = &battle_state.player2.team[team_index];
            (p.level, p.calculated_stats, crate::state::clone_vec_copy(&p.pokemon_types))
        },
    };
    let (target_stats, target_types) = match target {
        BattleEntityRef::Player1 { team_index } => {
            let p = &battle_state.player1.team[team_index];
            (p.calculated_stats, crate::state::clone_vec_copy(&p.pokemon_types))
        },
        _ => {
            let team_index = match target {
                BattleEntityRef::Player2 { team_index } => team_index,
                _ => 0,
            };
            let p = &battle_state.player2.team[team_index];
            (p.calculated_stats, crate::state::clone_vec_copy(&p.pokemon_types))
        },
    };

    let (damage, effectiveness, crit_out) = crate::damage::calculate_damage_from_rolls(
        source_level,
        &source_stats,
        &source_types,
        &target_stats,
        &target_types,
        move_details,
        Some(&repo.type_chart),
        is_critical,
        random_factor,
    );

    apply_pvp_damage(battle_state, battle_events, target, damage, effectiveness, crit_out);
    proof {
        lemma_pvp_monotone_trans(*old(battle_state), mid, *battle_state);
    }

    battle_events.push(BattleEvent::MoveUsed { source, move_id, move_name, target });
}

/// Execute a switch in a PvP battle: the active index moves and the
/// incoming Pokémon is announced with its public view.
fn execute_pvp_switch(
    battle_state: &mut PvPBattleState,
    battle_events: &mut Vec<BattleEvent>,
    source: BattleEntityRef,
    team_index: usize,
)
    requires
        old(battle_state).wf(),
        source is Player1 ==> team_index < old(battle_state).player1.team@.len(),
        source is Player2 ==> team_index < old(battle_state).player2.team@.len(),
        source is Player1 || source is Player2,
    ensures
        final(battle_state).wf(),
        pvp_faints_monotone(*old(battle_state), *final(battle_state)),
        final(battle_state).battle_phase == old(battle_state).battle_phase,
        source is Player1 ==> final(battle_state).player1.active_pokemon_index == team_index
            && !final(battle_state).player1.must_switch,
        source is Player2 ==> final(battle_state).player2.active_pokemon_index == team_index
            && !final(battle_state).player2.must_switch,
        final(battle_state).player1_action == old(battle_state).player1_action,
        final(battle_state).player2_action == old(battle_state).player2_action,
        final(battle_state).turn_number == old(battle_state).turn_number,
{
    match source {
        BattleEntityRef::Player1 { .. } => {
            let out_name =
                battle_state.player1.team[battle_state.player1.active_pokemon_index].name.clone();
            let in_name = battle_state.player1.team[team_index].name.clone();
            battle_state.player1.active_pokemon_index = team_index;
            battle_state.player1.must_switch = false;
            battle_events.push(
                BattleEvent::GenericMessage {
                    message: BattleMessage::SwitchAnnounced {
                        outgoing: out_name,
                        incoming: in_name,
                    },
                },
            );
            let view = crate::state::BattlePokemonPublicView::from_battle_pokemon(
                &battle_state.player1.team[team_index],
            );
            battle_events.push(BattleEvent::SwitchIn { pokemon_view: view, team_index });
        },
        _ => {
            let out_name =
                battle_state.player2.team[battle_state.player2.active_pokemon_index].name.clone();
            let in_name = battle_state.player2.team[team_index].name.clone();
            battle_state.player2.active_pokemon_index = team_index;
            battle_state.player2.must_switch = false;
            battle_events.push(
                BattleEvent::GenericMessage {
                    message: BattleMessage::SwitchAnnounced {
                        outgoing: out_name,
                        incoming: in_name,
                    },
                },
            );
            let view = crate::state::BattlePokemonPublicView::from_battle_pokemon(
                &battle_state.player2.team[team_index],
            );
            battle_events.push(BattleEvent::SwitchIn { pokemon_view: view, team_index });
        },
    }
}

/// Execute item use in a PvP battle: capture items are refused outright;
/// the potion family heals its fixed amount capped at the maximum HP; no
/// status cure exists yet.
fn execute_pvp_item(
    battle_state: &mut PvPBattleState,
    battle_events: &mut Vec<BattleEvent>,
    source: BattleEntityRef,
    item_id: String,
    is_capture_item: bool,
)
    requires
        old(battle_state).wf(),
        pvp_entity_ok(*old(battle_state), source),
    ensures
        final(battle_state).wf(),
        pvp_faints_monotone(*old(battle_state), *final(battle_state)),
        final(battle_state).battle_phase == old(battle_state).battle_phase,
        final(battle_state).player1.active_pokemon_index == old(battle_state).player1.active_pokemon_index,
        final(battle_state).player2.active_pokemon_index == old(battle_state).player2.active_pokemon_index,
        final(battle_state).player1_action == old(battle_state).player1_action,
        final(battle_state).player2_action == old(battle_state).player2_action,
        final(battle_state).turn_number == old(battle_state).turn_number,
        is_capture_item ==> *final(battle_state) == *old(battle_state),
        old(battle_events)@.is_prefix_of(final(battle_events)@),
        // the potion family heals its fixed amount, capped at the maximum
        !is_capture_item ==> ({
            let p = spec_pvp_pokemon_at(*old(battle_state), source);
            let healed = crate::state::spec_healed_hp(
                p.current_hp,
                p.max_hp,
                crate::state::spec_item_heal_amount(item_id@),
            );
            pvp_updated_at(
                *old(battle_state),
                *final(battle_state),
                source,
                BattlePokemon { current_hp: healed, ..p },
            )
        }),
{
    if is_capture_item {
        battle_events.push(
            BattleEvent::GenericMessage { message: BattleMessage::CaptureNotAllowed },
        );
        return ;
    }

    let player_name = match source {
        BattleEntityRef::Player1 { .. } => battle_state.player1.name.clone(),
        _ => battle_state.player2.name.clone(),
    };

    let heal_amount: u32 = crate::state::item_heal_amount(&item_id);

    match source {
        BattleEntityRef::Player1 { team_index } => {
            let p_hp = battle_state.player1.team[team_index].current_hp;
            let p_max = battle_state.player1.team[team_index].max_hp;
            let healed = if p_max - p_hp < heal_amount {
                p_max
            } else {
                p_hp + heal_amount
            };
            battle_state.player1.team[team_index].current_hp = healed;
            proof {
                let oldp = spec_pvp_pokemon_at(*old(battle_state), source);
                assert(battle_state.player1.team@ =~= old(battle_state).player1.team@.update(
                    team_index as int,
                    BattlePokemon { current_hp: healed, ..oldp },
                ));
            }
            let actual = healed - p_hp;
            if actual > 0 {
                battle_events.push(
                    BattleEvent::Heal { target: source, amount: actual, new_hp: healed, max_hp: p_max },
                );
            }
        },
        BattleEntityRef::Player2 { team_index } => {
            let p_hp = battle_state.player2.team[team_index].current_hp;
            let p_max = battle_state.player2.team[team_index].max_hp;
            let healed = if p_max - p_hp < heal_amount {
                p_max
            } else {
                p_hp + heal_amount
            };
            battle_state.player2.team[team_index].current_hp = healed;
            proof {
                let oldp = spec_pvp_pokemon_at(*old(battle_state), source);
                assert(battle_state.player2.team@ =~= old(battle_state).player2.team@.update(
                    team_index as int,
                    BattlePokemon { current_hp: healed, ..oldp },
                ));
            }
            let actual = healed - p_hp;
            if actual > 0 {
                battle_events.push(
                    BattleEvent::Heal { target: source, amount: actual, new_hp: healed, max_hp: p_max },
                );
            }
        },
        _ => {
            proof {
                assert(false);
            }
        },
    }

    battle_events.push(
        BattleEvent::GenericMessage {
            message: BattleMessage::ItemUsedBy { user: player_name, item_name: item_id.clone() },
        },
    );
    battle_events.push(BattleEvent::ItemUsed { item_id, item_name: String::new(), target: Some(source) });
}

/// Executes one submitted PvP action.
fn execute_pvp_action(
    battle_state: &mut PvPBattleState,
    battle_events: &mut Vec<BattleEvent>,
    move_repository: Option<&MoveRepository>,
    source_entity: BattleEntityRef,
    action: PlayerAction,
    is_first_action: bool,
)
    requires
        old(battle_state).wf(),
        crate::wild::repo_ok(move_repository),
        pvp_entity_ok(*old(battle_state), source_entity),
        match action {
            PlayerAction::SwitchPokemon { team_index } => (source_entity is Player1 ==> team_index
                < old(battle_state).player1.team@.len()) && (source_entity is Player2
                ==> team_index < old(battle_state).player2.team@.len()),
            _ => true,
        },
    ensures
        final(battle_state).wf(),
        pvp_faints_monotone(*old(battle_state), *final(battle_state)),
        final(battle_state).battle_phase == old(battle_state).battle_phase || final(battle_state).battle_phase == BattlePvPPhase::Finished,
        // only a surrender moves the phase
        final(battle_state).battle_phase != old(battle_state).battle_phase ==> action matches PlayerAction::Run,
        final(battle_state).player1_action == old(battle_state).player1_action,
        final(battle_state).player2_action == old(battle_state).player2_action,
        final(battle_state).turn_number == old(battle_state).turn_number,
{
    match action {
        PlayerAction::UseMove { move_index } => {
            let is_critical = random_below(16) == 0;
            let random_factor = 85 + random_below(16);
            execute_pvp_move(
                battle_state,
                battle_events,
                move_repository,
                source_entity,
                move_index,
                is_critical,
                random_factor,
            );
        },
        PlayerAction::SwitchPokemon { team_index } => {
            execute_pvp_switch(battle_state, battle_events, source_entity, team_index);
        },
        PlayerAction::UseItem { item_id, is_capture_item } => {
            execute_pvp_item(battle_state, battle_events, source_entity, item_id, is_capture_item);
        },
        PlayerAction::Run => {
            execute_pvp_surrender(battle_state, battle_events, source_entity);
        },
    }
}

/// The exact events PvP end-of-turn Burn emits: for each burned active
/// with a non-zero sixteenth, a DamageDealt then a StatusDamage with the
/// resulting HP; player one's side first.
pub open spec fn spec_pvp_burn_events(state: PvPBattleState) -> Seq<BattleEvent> {
    let i1 = state.player1.active_pokemon_index;
    let p1 = state.player1.spec_active();
    let d1 = crate::wild::spec_burn_damage(p1);
    let i2 = state.player2.active_pokemon_index;
    let p2 = state.player2.spec_active();
    let d2 = crate::wild::spec_burn_damage(p2);
    let part1: Seq<BattleEvent> = if d1 > 0 {
        seq![
            BattleEvent::DamageDealt {
                target: BattleEntityRef::Player1 { team_index: i1 },
                damage: d1,
                new_hp: crate::effects::spec_sat_sub(p1.current_hp, d1),
                max_hp: p1.max_hp,
                effectiveness: crate::damage::Effectiveness { num: 1u64, den: 1u64 },
                is_critical: false,
            },
            BattleEvent::StatusDamage {
                target: BattleEntityRef::Player1 { team_index: i1 },
                status: StatusCondition::Burn,
                damage: d1,
                new_hp: crate::effects::spec_sat_sub(p1.current_hp, d1),
                max_hp: p1.max_hp,
            },
        ]
    } else {
        Seq::empty()
    };
    let part2: Seq<BattleEvent> = if d2 > 0 {
        seq![
            BattleEvent::DamageDealt {
                target: BattleEntityRef::Player2 { team_index: i2 },
                damage: d2,
                new_hp: crate::effects::spec_sat_sub(p2.current_hp, d2),
                max_hp: p2.max_hp,
                effectiveness: crate::damage::Effectiveness { num: 1u64, den: 1u64 },
                is_critical: false,
            },
            BattleEvent::StatusDamage {
                target: BattleEntityRef::Player2 { team_index: i2 },
                status: StatusCondition::Burn,
                damage: d2,
                new_hp: crate::effects::spec_sat_sub(p2.current_hp, d2),
                max_hp: p2.max_hp,
            },
        ]
    } else {
        Seq::empty()
    };
    part1 + part2
}

/// Apply end-of-turn effects in a PvP battle: each burned active loses
/// exactly a sixteenth of its maximum HP, with a DamageDealt and a
/// StatusDamage event carrying the resulting HP, identical to the wild
/// resolver; nothing else changes.
fn apply_pvp_end_of_turn_effects(
    battle_state: &mut PvPBattleState,
    battle_events: &mut Vec<BattleEvent>,
)
    requires
        old(battle_state).wf(),
    ensures
        final(battle_state).wf(),
        pvp_faints_monotone(*old(battle_state), *final(battle_state)),
        final(battle_state).battle_phase == old(battle_state).battle_phase,
        final(battle_state).player1.active_pokemon_index == old(battle_state).player1.active_pokemon_index,
        final(battle_state).player2.active_pokemon_index == old(battle_state).player2.active_pokemon_index,
        final(battle_state).player1_action == old(battle_state).player1_action,
        final(battle_state).player2_action == old(battle_state).player2_action,
        final(battle_state).turn_number == old(battle_state).turn_number,
        // exactly the burn events are appended
        final(battle_events)@ == old(battle_events)@ + spec_pvp_burn_events(*old(battle_state)),
        // both actives lose exactly their burn damage and nothing else
        final(battle_state).player1.spec_active() == (BattlePokemon {
            current_hp: crate::effects::spec_sat_sub(
                old(battle_state).player1.spec_active().current_hp,
                crate::wild::spec_burn_damage(old(battle_state).player1.spec_active()),
            ),
            ..old(battle_state).player1.spec_active()
        }),
        final(battle_state).player2.spec_active() == (BattlePokemon {
            current_hp: crate::effects::spec_sat_sub(
                old(battle_state).player2.spec_active().current_hp,
                crate::wild::spec_burn_damage(old(battle_state).player2.spec_active()),
            ),
            ..old(battle_state).player2.spec_active()
        }),
        // bench members are untouched
        forall|i: int|
            0 <= i < old(battle_state).player1.team@.len() && i != old(battle_state).player1.active_pokemon_index ==> (#[trigger] final(battle_state).player1.team@[i]) == old(battle_state).player1.team@[i],
        forall|i: int|
            0 <= i < old(battle_state).player2.team@.len() && i != old(battle_state).player2.active_pokemon_index ==> (#[trigger] final(battle_state).player2.team@[i]) == old(battle_state).player2.team@[i],
{
    let p1_idx = battle_state.player1.active_pokemon_index;
    let p1_target = BattleEntityRef::Player1 { team_index: p1_idx };
    let p1_burned = matches!(
        battle_state.player1.team[p1_idx].status,
        Some(StatusCondition::Burn)
    );
    if p1_burned {
        let damage = battle_state.player1.team[p1_idx].max_hp / 16;
        if damage > 0 {
            apply_pvp_damage(
                battle_state,
                battle_events,
                p1_target,
                damage,
                crate::damage::Effectiveness { num: 1, den: 1 },
                false,
            );
            let hp = battle_state.player1.team[p1_idx].current_hp;
            let mx = battle_state.player1.team[p1_idx].max_hp;
            battle_events.push(
                BattleEvent::StatusDamage {
                    target: p1_target,
                    status: StatusCondition::Burn,
                    damage,
                    new_hp: hp,
                    max_hp: mx,
                },
            );
        }
    }

    let p2_idx = battle_state.player2.active_pokemon_index;
    let p2_target = BattleEntityRef::Player2 { team_index: p2_idx };
    let p2_burned = matches!(
        battle_state.player2.team[p2_idx].status,
        Some(StatusCondition::Burn)
    );
    if p2_burned {
        let damage = battle_state.player2.team[p2_idx].max_hp / 16;
        if damage > 0 {
            apply_pvp_damage(
                battle_state,
                battle_events,
                p2_target,
                damage,
                crate::damage::Effectiveness { num: 1, den: 1 },
                false,
            );
            let hp = battle_state.player2.team[p2_idx].current_hp;
            let mx = battle_state.player2.team[p2_idx].max_hp;
            battle_events.push(
                BattleEvent::StatusDamage {
                    target: p2_target,
                    status: StatusCondition::Burn,
                    damage,
                    new_hp: hp,
                    max_hp: mx,
                },
            );
        }
    }
    proof {
        assert(final(battle_events)@ =~= old(battle_events)@ + spec_pvp_burn_events(
            *old(battle_state),
        ));
    }
}

/// Check for fainted actives in a PvP battle: an active whose HP reached
/// zero while its flag was clear is marked fainted — once set, the flag
/// never clears — with exactly one faint event, and its opponent's active
/// is awarded the trainer-formula experience, which may level it up
/// repeatedly. Both sides are always checked, so a double wipe finishes
/// the battle as the draw the outcome resolution reports. Returns
/// (anything newly fainted, the battle ended here).
#[verifier::rlimit(100)]
#[verifier::spinoff_prover]
fn check_pvp_faints(
    battle_state: &mut PvPBattleState,
    battle_events: &mut Vec<BattleEvent>,
    monster_repository: &MonsterTemplateRepository,
) -> (r: (bool, bool))
    requires
        old(battle_state).wf(),
        monster_repository.wf(),
    ensures
        final(battle_state).wf(),
        pvp_faints_monotone(*old(battle_state), *final(battle_state)),
        final(battle_state).player1.active_pokemon_index == old(battle_state).player1.active_pokemon_index,
        final(battle_state).player2.active_pokemon_index == old(battle_state).player2.active_pokemon_index,
        final(battle_state).player1_action == old(battle_state).player1_action,
        final(battle_state).player2_action == old(battle_state).player2_action,
        final(battle_state).turn_number == old(battle_state).turn_number,
        old(battle_events)@.is_prefix_of(final(battle_events)@),
        ({
            let i1 = old(battle_state).player1.active_pokemon_index;
            let i2 = old(battle_state).player2.active_pokemon_index;
            let p1 = old(battle_state).player1.spec_active();
            let p2 = old(battle_state).player2.spec_active();
            let new1 = !p1.is_fainted && p1.current_hp == 0;
            let marked2 = !p2.is_fainted && final(battle_state).player2.team@[i2 as int].is_fainted;

            // the flags move exactly as the HPs demand; no other flag moves
            &&& final(battle_state).player1.team@[i1 as int].is_fainted == (p1.is_fainted || new1)
            &&& (forall|k: int|
                0 <= k < old(battle_state).player1.team@.len() && k != i1 ==> (#[trigger] final(battle_state).player1.team@[k]).is_fainted == old(battle_state).player1.team@[k].is_fainted)
            &&& (forall|k: int|
                0 <= k < old(battle_state).player2.team@.len() && k != i2 ==> (#[trigger] final(battle_state).player2.team@[k]).is_fainted == old(battle_state).player2.team@[k].is_fainted)
            &&& (final(battle_state).player2.team@[i2 as int].is_fainted ==> (p2.is_fainted || final(battle_state).player2.team@[i2 as int].current_hp == 0))
            // when no award could have healed it, the second side is
            // marked exactly when its HP demands
            &&& (!new1 ==> (marked2 <==> (!p2.is_fainted && p2.current_hp == 0)))
            // the returned pair: anything newly fainted, the battle ended
            &&& r.0 == (new1 || marked2)
            &&& (r.1 ==> r.0)
            &&& final(battle_state).battle_phase == (if r.1 {
                BattlePvPPhase::Finished
            } else {
                old(battle_state).battle_phase
            })
            // the experience awards, exact and saturating
            &&& (new1 ==> spec_pvp_pokemon_at(
                *final(battle_state),
                BattleEntityRef::Player2 { team_index: i2 },
            ).exp == spec_sat_add_u64(p2.exp, spec_pvp_exp_gain(p1.base_exp, p1.level)))
            // faint events: the newly marked first side's event opens the
            // append, and a check that marks nothing emits nothing at all
            // (repeated checks without intervening damage never double-emit)
            &&& (new1 ==> final(battle_events)@[old(battle_events)@.len() as int]
                == (BattleEvent::PokemonFainted {
                target: BattleEntityRef::Player1 { team_index: i1 },
            }))
            &&& (marked2 ==> (exists|k: int|
                old(battle_events)@.len() <= k < final(battle_events)@.len() && (
                #[trigger] final(battle_events)@[k]) == (BattleEvent::PokemonFainted {
                    target: BattleEntityRef::Player2 { team_index: i2 },
                })))
            &&& ((!new1 && !marked2) ==> final(battle_events)@ == old(battle_events)@)
        }),
{
    let mut fainted = false;
    let mut battle_ended = false;
    let ghost e0 = battle_events@;

    let p1_idx = battle_state.player1.active_pokemon_index;
    if !battle_state.player1.team[p1_idx].is_fainted
        && battle_state.player1.team[p1_idx].current_hp == 0 {
        battle_state.player1.team[p1_idx].is_fainted = true;
        battle_events.push(
            BattleEvent::PokemonFainted { target: BattleEntityRef::Player1 { team_index: p1_idx } },
        );
        let ghost s1 = *battle_state;
        let ghost e1 = battle_events@;
        proof {
            assert(pvp_faints_monotone(*old(battle_state), s1));
            assert(e0.is_prefix_of(e1)) by {
                assert(e0 =~= e1.subrange(0, e0.len() as int));
            };
        }

        award_pvp_exp(battle_state, battle_events, monster_repository, false, p1_idx);
        proof {
            lemma_pvp_monotone_trans(*old(battle_state), s1, *battle_state);
            crate::wild::lemma_events_prefix_trans(e0, e1, battle_events@);
            assert(battle_events@[e0.len() as int] == e1[e0.len() as int]) by {
                assert(e1 =~= battle_events@.subrange(0, e1.len() as int));
            };
        }
        fainted = true;

        let none_left = battle_state.player1.all_fainted();
        if none_left {
            battle_state.battle_phase = BattlePvPPhase::Finished;
            let ghost e2 = battle_events@;
            battle_events.push(
                BattleEvent::GenericMessage {
                    message: BattleMessage::TeamDefeated {
                        loser: battle_state.player1.name.clone(),
                        winner: battle_state.player2.name.clone(),
                    },
                },
            );
            proof {
                assert(e2.is_prefix_of(battle_events@)) by {
                    assert(e2 =~= battle_events@.subrange(0, e2.len() as int));
                };
                crate::wild::lemma_events_prefix_trans(e0, e2, battle_events@);
            }
            battle_ended = true;
        }
    }

    let p2_idx = battle_state.player2.active_pokemon_index;
    if !battle_state.player2.team[p2_idx].is_fainted
        && battle_state.player2.team[p2_idx].current_hp == 0 {
        let ghost s2pre = *battle_state;
        battle_state.player2.team[p2_idx].is_fainted = true;
        let ghost w2 = battle_events@.len() as int;
        battle_events.push(
            BattleEvent::PokemonFainted { target: BattleEntityRef::Player2 { team_index: p2_idx } },
        );
        let ghost s2 = *battle_state;
        let ghost e3 = battle_events@;
        proof {
            assert(pvp_faints_monotone(s2pre, s2));
            lemma_pvp_monotone_trans(*old(battle_state), s2pre, s2);
            assert(e3[w2] == (BattleEvent::PokemonFainted {
                target: BattleEntityRef::Player2 { team_index: p2_idx },
            }));
            assert(e0.is_prefix_of(e3)) by {
                assert(e0 =~= e3.subrange(0, e0.len() as int));
            };
        }

        award_pvp_exp(battle_state, battle_events, monster_repository, true, p2_idx);
        proof {
            lemma_pvp_monotone_trans(*old(battle_state), s2, *battle_state);
            crate::wild::lemma_events_prefix_trans(e0, e3, battle_events@);
            assert(battle_events@[w2] == e3[w2] && battle_events@[e0.len() as int] == e3[e0.len() as int]) by {
                assert(e3 =~= battle_events@.subrange(0, e3.len() as int));
            };
        }
        fainted = true;

        let none_left = battle_state.player2.all_fainted();
        if none_left {
            battle_state.battle_phase = BattlePvPPhase::Finished;
            let ghost e4 = battle_events@;
            battle_events.push(
                BattleEvent::GenericMessage {
                    message: BattleMessage::TeamDefeated {
                        loser: battle_state.player2.name.clone(),
                        winner: battle_state.player1.name.clone(),
                    },
                },
            );
            proof {
                assert(e4.is_prefix_of(battle_events@)) by {
                    assert(e4 =~= battle_events@.subrange(0, e4.len() as int));
                };
                crate::wild::lemma_events_prefix_trans(e0, e4, battle_events@);
            }
            battle_ended = true;
        }
    }

    (fainted, battle_ended)
}

/// Awards the experience for a fainted active to the opposing active:
/// `winner_is_player1` names the side that receives it. The winner's
/// active gains exactly the trainer-formula experience (saturating), may
/// level up repeatedly, and an ExpGained event closes the award. A
/// missing template degrades to the bare experience gain, with no
/// level-up.
fn award_pvp_exp(
    battle_state: &mut PvPBattleState,
    battle_events: &mut Vec<BattleEvent>,
    monster_repository: &MonsterTemplateRepository,
    winner_is_player1: bool,
    fainted_idx: usize,
)
    requires
        old(battle_state).wf(),
        monster_repository.wf(),
        winner_is_player1 ==> fainted_idx < old(battle_state).player2.team@.len(),
        !winner_is_player1 ==> fainted_idx < old(battle_state).player1.team@.len(),
    ensures
        final(battle_state).wf(),
        pvp_faints_monotone(*old(battle_state), *final(battle_state)),
        final(battle_state).battle_phase == old(battle_state).battle_phase,
        final(battle_state).player1.active_pokemon_index == old(battle_state).player1.active_pokemon_index,
        final(battle_state).player2.active_pokemon_index == old(battle_state).player2.active_pokemon_index,
        final(battle_state).player1_action == old(battle_state).player1_action,
        final(battle_state).player2_action == old(battle_state).player2_action,
        final(battle_state).turn_number == old(battle_state).turn_number,
        old(battle_events)@.is_prefix_of(final(battle_events)@),
        // only the winner's active slot changes, and no faint event is
        // ever emitted here
        ({
            let wref = if winner_is_player1 {
                BattleEntityRef::Player1 { team_index: old(battle_state).player1.active_pokemon_index }
            } else {
                BattleEntityRef::Player2 { team_index: old(battle_state).player2.active_pokemon_index }
            };
            let fref = if winner_is_player1 {
                BattleEntityRef::Player2 { team_index: fainted_idx }
            } else {
                BattleEntityRef::Player1 { team_index: fainted_idx }
            };
            let wp = spec_pvp_pokemon_at(*old(battle_state), wref);
            let fp = spec_pvp_pokemon_at(*old(battle_state), fref);
            let gain = spec_pvp_exp_gain(fp.base_exp, fp.level);
            &&& spec_pvp_pokemon_at(*final(battle_state), wref).exp == spec_sat_add_u64(
                wp.exp,
                gain,
            )
            &&& spec_pvp_pokemon_at(*final(battle_state), wref).level >= wp.level
            &&& spec_pvp_pokemon_at(*final(battle_state), wref).is_fainted == wp.is_fainted
            &&& pvp_updated_at(
                *old(battle_state),
                *final(battle_state),
                wref,
                spec_pvp_pokemon_at(*final(battle_state), wref),
            )
            &&& final(battle_events)@.last() == (BattleEvent::ExpGained {
                source: fref,
                amount: gain,
            })
            &&& forall|k: int|
                old(battle_events)@.len() <= k < final(battle_events)@.len() ==> !((
                #[trigger] final(battle_events)@[k]) is PokemonFainted)
        }),
{
    let (base_exp, level) = if winner_is_player1 {
        let p = &battle_state.player2.team[fainted_idx];
        (p.base_exp, p.level)
    } else {
        let p = &battle_state.player1.team[fainted_idx];
        (p.base_exp, p.level)
    };
    let exp_gained = calculate_pvp_exp_gain(base_exp, level);

    let winner_idx = if winner_is_player1 {
        battle_state.player1.active_pokemon_index
    } else {
        battle_state.player2.active_pokemon_index
    };
    let winner_name = if winner_is_player1 {
        battle_state.player1.team[winner_idx].name.clone()
    } else {
        battle_state.player2.team[winner_idx].name.clone()
    };
    battle_events.push(
        BattleEvent::GenericMessage {
            message: BattleMessage::ExpGainAnnounced { receiver: winner_name, amount: exp_gained },
        },
    );

    let template_id = if winner_is_player1 {
        battle_state.player1.team[winner_idx].template_id
    } else {
        battle_state.player2.team[winner_idx].template_id
    };
    let base_stats = match monster_repository.get_template(template_id) {
        Some(t) => Some(t.base_stats),
        None => None,
    };
    let room = if winner_is_player1 {
        battle_state.player1.team[winner_idx].exp
    } else {
        battle_state.player2.team[winner_idx].exp
    };
    let gain_eff: u64 = if exp_gained > u64::MAX - room {
        u64::MAX - room
    } else {
        exp_gained
    };
    match base_stats {
        Some(bs) => {
            let levels_gained = if winner_is_player1 {
                level_up_battle_pokemon(&mut battle_state.player1.team[winner_idx], gain_eff, &bs)
            } else {
                level_up_battle_pokemon(&mut battle_state.player2.team[winner_idx], gain_eff, &bs)
            };
            if levels_gained > 0 {
                let (nm, lv) = if winner_is_player1 {
                    let p = &battle_state.player1.team[winner_idx];
                    (p.name.clone(), p.level)
                } else {
                    let p = &battle_state.player2.team[winner_idx];
                    (p.name.clone(), p.level)
                };
                battle_events.push(
                    BattleEvent::GenericMessage {
                        message: BattleMessage::LevelUpAnnounced { receiver: nm, level: lv },
                    },
                );
            }
        },
        None => {
            // unknown template: harden to the bare gain, no level-up
            if winner_is_player1 {
                let e = battle_state.player1.team[winner_idx].exp;
                battle_state.player1.team[winner_idx].exp = e + gain_eff;
            } else {
                let e = battle_state.player2.team[winner_idx].exp;
                battle_state.player2.team[winner_idx].exp = e + gain_eff;
            }
        },
    }
    proof {
        if winner_is_player1 {
            assert(battle_state.player1.team@ =~= old(battle_state).player1.team@.update(
                winner_idx as int,
                battle_state.player1.team@[winner_idx as int],
            ));
        } else {
            assert(battle_state.player2.team@ =~= old(battle_state).player2.team@.update(
                winner_idx as int,
                battle_state.player2.team@[winner_idx as int],
            ));
        }
    }

    let fainted_ref = if winner_is_player1 {
        BattleEntityRef::Player2 { team_index: fainted_idx }
    } else {
        BattleEntityRef::Player1 { team_index: fainted_idx }
    };
    battle_events.push(BattleEvent::ExpGained { source: fainted_ref, amount: exp_gained });
}

/// Processes a single turn of a PvP battle: both actions ordered by the
/// stated precedence (Run first against a move — the preserved quirk),
/// only the opponent's faint blocks the second action, end-of-turn Burn,
/// and a phase resolution over every combination of fainted actives and
/// usable benches; a side with no usable Pokémon left finishes the battle,
/// both sides down is the draw told by the outcome resolution.
#[verifier::rlimit(100)]
pub fn process_pvp_turn(
    battle_state: &mut PvPBattleState,
    monster_repository: &MonsterTemplateRepository,
    move_repository: Option<&MoveRepository>,
) -> (battle_events: Vec<BattleEvent>)
    requires
        old(battle_state).wf(),
        monster_repository.wf(),
        crate::wild::repo_ok(move_repository),
        old(battle_state).battle_phase == BattlePvPPhase::ProcessingTurn,
        old(battle_state).turn_number < 0xffff_ffffu32,
        match old(battle_state).player1_action {
            Some(PlayerAction::SwitchPokemon { team_index }) => team_index < old(battle_state).player1.team@.len(),
            _ => true,
        },
        match old(battle_state).player2_action {
            Some(PlayerAction::SwitchPokemon { team_index }) => team_index < old(battle_state).player2.team@.len(),
            _ => true,
        },
    ensures
        final(battle_state).wf(),
        pvp_faints_monotone(*old(battle_state), *final(battle_state)),
        final(battle_state).player1_action is None,
        final(battle_state).player2_action is None,
        final(battle_state).turn_order is None,
        // the turn closes in one of the waiting phases or finished
        (final(battle_state).battle_phase == BattlePvPPhase::WaitingForBothPlayersActions || final(battle_state).battle_phase == BattlePvPPhase::WaitingForPlayer1Switch || final(battle_state).battle_phase == BattlePvPPhase::WaitingForPlayer2Switch || final(battle_state).battle_phase == BattlePvPPhase::Finished),
        // a side with no usable Pokémon left always ends the battle
        (final(battle_state).player1.spec_all_fainted() || final(battle_state).player2.spec_all_fainted()) ==> final(battle_state).battle_phase
            == BattlePvPPhase::Finished,
        // a single-side switch is demanded only of a fainted active with a
        // healthy bench
        final(battle_state).battle_phase == BattlePvPPhase::WaitingForPlayer1Switch ==> (final(battle_state).player1.spec_active().is_fainted && final(battle_state).player1.spec_has_healthy()),
        final(battle_state).battle_phase == BattlePvPPhase::WaitingForPlayer2Switch ==> (final(battle_state).player2.spec_active().is_fainted && final(battle_state).player2.spec_has_healthy()),
{
    let mut battle_events: Vec<BattleEvent> = Vec::new();

    battle_events.push(BattleEvent::TurnStart { turn_number: battle_state.turn_number });

    // --- determine turn order ---
    let coin = random_below(2) == 0;
    let turn_order = determine_pvp_turn_order(battle_state, coin);
    battle_state.turn_order = Some(turn_order);
    battle_events.push(
        BattleEvent::GenericMessage {
            message: BattleMessage::PvPTurnOrderAnnounced {
                turn_number: battle_state.turn_number,
                order: turn_order,
            },
        },
    );

    // --- execute actions ---
    let player1_first = matches!(turn_order, PvPTurnOrder::Player1First);
    let first_action = if player1_first {
        match &battle_state.player1_action {
            Some(a) => Some(a.clone()),
            None => None,
        }
    } else {
        match &battle_state.player2_action {
            Some(a) => Some(a.clone()),
            None => None,
        }
    };
    match first_action {
        Some(action) => {
            let first_entity = if player1_first {
                BattleEntityRef::Player1 { team_index: battle_state.player1.active_pokemon_index }
            } else {
                BattleEntityRef::Player2 { team_index: battle_state.player2.active_pokemon_index }
            };
            execute_pvp_action(
                battle_state,
                &mut battle_events,
                move_repository,
                first_entity,
                action,
                true,
            );
            check_pvp_faints(battle_state, &mut battle_events, monster_repository);

            // only the opponent's faint blocks the second action
            let second_active_fainted = if player1_first {
                battle_state.player2.team[battle_state.player2.active_pokemon_index].is_fainted
            } else {
                battle_state.player1.team[battle_state.player1.active_pokemon_index].is_fainted
            };
            let finished = matches!(battle_state.battle_phase, BattlePvPPhase::Finished);
            if !finished && !second_active_fainted {
                let second_action = if player1_first {
                    match &battle_state.player2_action {
                        Some(a) => Some(a.clone()),
                        None => None,
                    }
                } else {
                    match &battle_state.player1_action {
                        Some(a) => Some(a.clone()),
                        None => None,
                    }
                };
                match second_action {
                    Some(action) => {
                        let second_entity = if player1_first {
                            BattleEntityRef::Player2 {
                                team_index: battle_state.player2.active_pokemon_index,
                            }
                        } else {
                            BattleEntityRef::Player1 {
                                team_index: battle_state.player1.active_pokemon_index,
                            }
                        };
                        execute_pvp_action(
                            battle_state,
                            &mut battle_events,
                            move_repository,
                            second_entity,
                            action,
                            false,
                        );
                        check_pvp_faints(battle_state, &mut battle_events, monster_repository);
                    },
                    None => {},
                }
            }
        },
        None => {},
    }

    // --- end-of-turn effects, then their faints ---
    apply_pvp_end_of_turn_effects(battle_state, &mut battle_events);
    check_pvp_faints(battle_state, &mut battle_events, monster_repository);

    // --- battle end check ---
    check_pvp_battle_end(battle_state);

    // --- next phase over every faint combination ---
    match battle_state.battle_phase {
        BattlePvPPhase::ProcessingTurn => {
            battle_state.turn_number = battle_state.turn_number + 1;

            let p1_fainted =
                battle_state.player1.team[battle_state.player1.active_pokemon_index].is_fainted;
            let p2_fainted =
                battle_state.player2.team[battle_state.player2.active_pokemon_index].is_fainted;
            let p1_can = battle_state.player1.has_healthy_member();
            let p2_can = battle_state.player2.has_healthy_member();

            if p1_fainted && p2_fainted {
                if p1_can && p2_can {
                    battle_state.battle_phase = BattlePvPPhase::WaitingForBothPlayersActions;
                    battle_state.player1.must_switch = true;
                    battle_state.player2.must_switch = true;
                } else {
                    battle_state.battle_phase = BattlePvPPhase::Finished;
                }
            } else if p1_fainted {
                if p1_can {
                    battle_state.battle_phase = BattlePvPPhase::WaitingForPlayer1Switch;
                    battle_state.player1.must_switch = true;
                } else {
                    battle_state.battle_phase = BattlePvPPhase::Finished;
                }
            } else if p2_fainted {
                if p2_can {
                    battle_state.battle_phase = BattlePvPPhase::WaitingForPlayer2Switch;
                    battle_state.player2.must_switch = true;
                } else {
                    battle_state.battle_phase = BattlePvPPhase::Finished;
                }
            } else {
                battle_state.battle_phase = BattlePvPPhase::WaitingForBothPlayersActions;
            }
        },
        _ => {},
    }

    // --- clear the pending actions ---
    battle_state.player1_action = None;
    battle_state.player2_action = None;
    battle_state.turn_order = None;

    battle_events
}

} // verus!
