//! The wild-battle turn resolver: turn ordering by speed (ties go to the
//! player), action execution, faint checks, end-of-turn Burn damage, and
//! the phase transition that closes each turn.

use vstd::prelude::*;

use crate::damage::{
    calculate_damage_from_rolls, spec_damage_result, spec_damage_u32, spec_effectiveness,
    types_contain, Effectiveness,
};
use crate::effects::{
    apply_damage, apply_damage_with_effectiveness, apply_effect, spec_sat_sub,
    spec_wild_pokemon_at, wild_entity_ok, wild_updated_at,
};
use crate::external::random_below;
use crate::moves::{spec_find_move, MoveCategory, MoveData, MoveRepository, PokemonType, TypeChart};
use crate::state::{
    BallType, BattleEntityRef, BattleEvent, BattleMessage, BattlePhase, BattlePokemon,
    BattlePokemonPublicView, CaptureAttempt, PlayerAction, StatusCondition, TurnOrder,
    WildBattleState, WildPokemonAction,
};

verus! {

/// Identity of a Pokémon: everything a turn never touches.
pub open spec fn pokemon_identity_preserved(a: BattlePokemon, b: BattlePokemon) -> bool {
    &&& b.template_id == a.template_id
    &&& b.name == a.name
    &&& b.level == a.level
    &&& b.instance_id == a.instance_id
    &&& b.max_hp == a.max_hp
    &&& b.exp == a.exp
    &&& b.max_exp == a.max_exp
    &&& b.base_exp == a.base_exp
    &&& b.calculated_stats == a.calculated_stats
    &&& b.nature == a.nature
    &&& b.is_wild == a.is_wild
    &&& b.position == a.position
}

/// No participant changes identity over a wild turn: the team keeps its
/// length and every slot keeps level, experience, stats and names.
pub open spec fn wild_identities_preserved(pre: WildBattleState, post: WildBattleState) -> bool {
    &&& post.player.team@.len() == pre.player.team@.len()
    &&& post.player.player_id == pre.player.player_id
    &&& post.player.name == pre.player.name
    &&& forall|i: int|
        0 <= i < pre.player.team@.len() ==> pokemon_identity_preserved(
            pre.player.team@[i],
            #[trigger] post.player.team@[i],
        )
    &&& pokemon_identity_preserved(pre.wild_pokemon, post.wild_pokemon)
}

/// A faint flag, once set, is never unset.
pub open spec fn wild_faints_monotone(pre: WildBattleState, post: WildBattleState) -> bool {
    &&& forall|i: int|
        0 <= i < pre.player.team@.len() && (#[trigger] pre.player.team@[i]).is_fainted
            ==> post.player.team@[i].is_fainted
    &&& (pre.wild_pokemon.is_fainted ==> post.wild_pokemon.is_fainted)
}

/// No faint flag moves at all.
pub open spec fn wild_faints_unchanged(pre: WildBattleState, post: WildBattleState) -> bool {
    &&& forall|i: int|
        0 <= i < pre.player.team@.len() ==> (#[trigger] post.player.team@[i]).is_fainted
            == pre.player.team@[i].is_fainted
    &&& post.wild_pokemon.is_fainted == pre.wild_pokemon.is_fainted
}

/// No current HP rises over the step.
pub open spec fn wild_hp_nonincreasing(pre: WildBattleState, post: WildBattleState) -> bool {
    &&& forall|i: int|
        0 <= i < pre.player.team@.len() ==> (#[trigger] post.player.team@[i]).current_hp
            <= pre.player.team@[i].current_hp
    &&& post.wild_pokemon.current_hp <= pre.wild_pokemon.current_hp
}

/// The bookkeeping a single action never touches: pending actions, turn
/// order, turn number, capture history left alone (capture appends).
pub open spec fn wild_pending_unchanged(pre: WildBattleState, post: WildBattleState) -> bool {
    &&& post.player_action == pre.player_action
    &&& post.wild_action == pre.wild_action
    &&& post.turn_order == pre.turn_order
    &&& post.turn_number == pre.turn_number
    &&& post.battle_id == pre.battle_id
}

/// Turn order by current speed; a tie resolves in the player's favour.
pub open spec fn spec_turn_order(state: WildBattleState) -> TurnOrder {
    if state.player.spec_active().calculated_stats.speed
        >= state.wild_pokemon.calculated_stats.speed {
        TurnOrder::PlayerFirst
    } else {
        TurnOrder::WildFirst
    }
}

/// The strictly faster side goes first; the player wins speed ties. No
/// priority moves and no Trick Room: speed alone decides.
pub fn determine_turn_order(state: &WildBattleState) -> (o: TurnOrder)
    requires
        state.wf(),
    ensures
        o == spec_turn_order(*state),
        state.player.spec_active().calculated_stats.speed
            > state.wild_pokemon.calculated_stats.speed ==> o == TurnOrder::PlayerFirst,
        state.player.spec_active().calculated_stats.speed
            < state.wild_pokemon.calculated_stats.speed ==> o == TurnOrder::WildFirst,
{
    let idx = state.player.active_pokemon_index;
    if state.player.team[idx].calculated_stats.speed >= state.wild_pokemon.calculated_stats.speed {
        TurnOrder::PlayerFirst
    } else {
        TurnOrder::WildFirst
    }
}

/// The faint events one check emits: one per slot whose HP reached zero
/// while its flag was still clear. Checking again without new damage
/// emits nothing.
pub open spec fn spec_newly_fainted_events(state: WildBattleState) -> Seq<BattleEvent> {
    let p = state.player.spec_active();
    let player_part: Seq<BattleEvent> = if !p.is_fainted && p.current_hp == 0 {
        seq![
            BattleEvent::PokemonFainted {
                target: BattleEntityRef::Player { team_index: state.player.active_pokemon_index },
            },
        ]
    } else {
        Seq::empty()
    };
    let wild_part: Seq<BattleEvent> = if !state.wild_pokemon.is_fainted
        && state.wild_pokemon.current_hp == 0 {
        seq![BattleEvent::PokemonFainted { target: BattleEntityRef::Wild }]
    } else {
        Seq::empty()
    };
    player_part + wild_part
}

/// Both checked slots already carry the faint flag their HP demands.
pub open spec fn wild_faints_settled(state: WildBattleState) -> bool {
    &&& (state.player.spec_active().current_hp == 0 ==> state.player.spec_active().is_fainted)
    &&& (state.wild_pokemon.current_hp == 0 ==> state.wild_pokemon.is_fainted)
}

/// Repeated faint checks without intervening damage never double-emit: a
/// state whose faint flags already reflect its HP yields no faint event.
pub proof fn lemma_faint_check_idempotent(state: WildBattleState)
    requires
        wild_faints_settled(state),
    ensures
        spec_newly_fainted_events(state) =~= Seq::<BattleEvent>::empty(),
{
}

/// Marks the active and wild Pokémon fainted where their HP reached zero,
/// emitting exactly one faint event per newly set flag; a wild faint ends
/// the battle. Returns whether anything newly fainted.
pub fn check_faints(battle_state: &mut WildBattleState, battle_events: &mut Vec<BattleEvent>) -> (fainted:
    bool)
    requires
        old(battle_state).wf(),
    ensures
        final(battle_state).wf(),
        final(battle_events)@ == old(battle_events)@ + spec_newly_fainted_events(
            *old(battle_state),
        ),
        fainted == (spec_newly_fainted_events(*old(battle_state)).len() > 0),
        wild_identities_preserved(*old(battle_state), *final(battle_state)),
        wild_faints_monotone(*old(battle_state), *final(battle_state)),
        wild_pending_unchanged(*old(battle_state), *final(battle_state)),
        final(battle_state).capture_attempts == old(battle_state).capture_attempts,
        // flags now reflect the (unchanged) HP of the checked slots
        wild_faints_settled(*final(battle_state)),
        // HP, stages, statuses, PP untouched
        forall|i: int|
            0 <= i < old(battle_state).player.team@.len() ==> (
            #[trigger] final(battle_state).player.team@[i]) == (BattlePokemon {
                is_fainted: final(battle_state).player.team@[i].is_fainted,
                ..old(battle_state).player.team@[i]
            }),
        final(battle_state).wild_pokemon == (BattlePokemon {
            is_fainted: final(battle_state).wild_pokemon.is_fainted,
            ..old(battle_state).wild_pokemon
        }),
        final(battle_state).player.active_pokemon_index == old(battle_state).player.active_pokemon_index,
        final(battle_state).player.must_switch == old(battle_state).player.must_switch,
        // phase: unchanged unless the wild newly fainted, which finishes it
        ({
            let wild_new = !old(battle_state).wild_pokemon.is_fainted && old(battle_state).wild_pokemon.current_hp == 0;
            final(battle_state).battle_phase == if wild_new {
                BattlePhase::Finished
            } else {
                old(battle_state).battle_phase
            }
        }),
{
    let mut fainted = false;
    let player_index = battle_state.player.active_pokemon_index;

    if !battle_state.player.team[player_index].is_fainted
        && battle_state.player.team[player_index].current_hp == 0 {
        battle_state.player.team[player_index].is_fainted = true;
        battle_events.push(
            BattleEvent::PokemonFainted {
                target: BattleEntityRef::Player { team_index: player_index },
            },
        );
        fainted = true;
    }

    if !battle_state.wild_pokemon.is_fainted && battle_state.wild_pokemon.current_hp == 0 {
        battle_state.wild_pokemon.is_fainted = true;
        battle_events.push(BattleEvent::PokemonFainted { target: BattleEntityRef::Wild });
        battle_state.battle_phase = BattlePhase::Finished;
        fainted = true;
    }
    proof {
        assert(final(battle_events)@ =~= old(battle_events)@ + spec_newly_fainted_events(
            *old(battle_state),
        ));
    }
    fainted
}

/// Ends the battle when the whole player team has fainted.
pub fn check_battle_end(battle_state: &mut WildBattleState)
    requires
        old(battle_state).wf(),
    ensures
        final(battle_state).wf(),
        final(battle_state).battle_phase == if old(battle_state).player.spec_all_fainted() {
            BattlePhase::Finished
        } else {
            old(battle_state).battle_phase
        },
        *final(battle_state) == (WildBattleState {
            battle_phase: final(battle_state).battle_phase,
            ..*old(battle_state)
        }),
{
    let all_player_fainted = battle_state.player.all_fainted();
    if all_player_fainted {
        battle_state.battle_phase = BattlePhase::Finished;
    }
}

/// Burn damage one side takes at end of turn: a sixteenth of its maximum
/// HP, only while it carries Burn.
pub open spec fn spec_burn_damage(p: BattlePokemon) -> u32 {
    if p.status == Some(StatusCondition::Burn) {
        (p.max_hp / 16) as u32
    } else {
        0u32
    }
}

/// The exact events end-of-turn Burn emits: for each burned active with a
/// non-zero sixteenth, a DamageDealt then a StatusDamage with the
/// resulting HP; player side first.
pub open spec fn spec_burn_events(state: WildBattleState) -> Seq<BattleEvent> {
    let idx = state.player.active_pokemon_index;
    let p = state.player.spec_active();
    let pd = spec_burn_damage(p);
    let w = state.wild_pokemon;
    let wd = spec_burn_damage(w);
    let p_part: Seq<BattleEvent> = if pd > 0 {
        seq![
            BattleEvent::DamageDealt {
                target: BattleEntityRef::Player { team_index: idx },
                damage: pd,
                new_hp: spec_sat_sub(p.current_hp, pd),
                max_hp: p.max_hp,
                effectiveness: Effectiveness { num: 1u64, den: 1u64 },
                is_critical: false,
            },
            BattleEvent::StatusDamage {
                target: BattleEntityRef::Player { team_index: idx },
                status: StatusCondition::Burn,
                damage: pd,
                new_hp: spec_sat_sub(p.current_hp, pd),
                max_hp: p.max_hp,
            },
        ]
    } else {
        Seq::empty()
    };
    let w_part: Seq<BattleEvent> = if wd > 0 {
        seq![
            BattleEvent::DamageDealt {
                target: BattleEntityRef::Wild,
                damage: wd,
                new_hp: spec_sat_sub(w.current_hp, wd),
                max_hp: w.max_hp,
                effectiveness: Effectiveness { num: 1u64, den: 1u64 },
                is_critical: false,
            },
            BattleEvent::StatusDamage {
                target: BattleEntityRef::Wild,
                status: StatusCondition::Burn,
                damage: wd,
                new_hp: spec_sat_sub(w.current_hp, wd),
                max_hp: w.max_hp,
            },
        ]
    } else {
        Seq::empty()
    };
    p_part + w_part
}

/// Applies end-of-turn effects: Burn damage of one sixteenth of maximum HP
/// to each burned active side (the only implemented status), each with a
/// DamageDealt and a StatusDamage event carrying the resulting HP; no
/// status itself changes and the bench is untouched.
pub fn apply_end_of_turn_effects(
    battle_state: &mut WildBattleState,
    battle_events: &mut Vec<BattleEvent>,
)
    requires
        old(battle_state).wf(),
    ensures
        final(battle_state).wf(),
        wild_identities_preserved(*old(battle_state), *final(battle_state)),
        wild_faints_unchanged(*old(battle_state), *final(battle_state)),
        wild_hp_nonincreasing(*old(battle_state), *final(battle_state)),
        wild_pending_unchanged(*old(battle_state), *final(battle_state)),
        final(battle_state).battle_phase == old(battle_state).battle_phase,
        final(battle_state).player.active_pokemon_index == old(battle_state).player.active_pokemon_index,
        final(battle_state).player.must_switch == old(battle_state).player.must_switch,
        final(battle_state).capture_attempts == old(battle_state).capture_attempts,
        // exactly the burn events are appended
        final(battle_events)@ == old(battle_events)@ + spec_burn_events(*old(battle_state)),
        // the actives lose exactly their burn damage and nothing else of
        // them changes; statuses stay as they were
        final(battle_state).player.spec_active() == (BattlePokemon {
            current_hp: spec_sat_sub(
                old(battle_state).player.spec_active().current_hp,
                spec_burn_damage(old(battle_state).player.spec_active()),
            ),
            ..old(battle_state).player.spec_active()
        }),
        final(battle_state).wild_pokemon == (BattlePokemon {
            current_hp: spec_sat_sub(
                old(battle_state).wild_pokemon.current_hp,
                spec_burn_damage(old(battle_state).wild_pokemon),
            ),
            ..old(battle_state).wild_pokemon
        }),
        // bench members are untouched
        forall|i: int|
            0 <= i < old(battle_state).player.team@.len() && i != old(battle_state).player.active_pokemon_index ==> (#[trigger] final(battle_state).player.team@[i]) == old(battle_state).player.team@[i],
{
    let player_index = battle_state.player.active_pokemon_index;
    let player_target = BattleEntityRef::Player { team_index: player_index };

    let player_burned = match battle_state.player.team[player_index].status {
        Some(StatusCondition::Burn) => true,
        _ => false,
    };
    if player_burned {
        let damage = battle_state.player.team[player_index].max_hp / 16;
        if damage > 0 {
            apply_damage(battle_state, battle_events, player_target, damage);
            let p_hp = battle_state.player.team[player_index].current_hp;
            let p_max = battle_state.player.team[player_index].max_hp;
            battle_events.push(
                BattleEvent::StatusDamage {
                    target: player_target,
                    status: StatusCondition::Burn,
                    damage,
                    new_hp: p_hp,
                    max_hp: p_max,
                },
            );
        }
    }

    let wild_target = BattleEntityRef::Wild;
    let wild_burned = match battle_state.wild_pokemon.status {
        Some(StatusCondition::Burn) => true,
        _ => false,
    };
    if wild_burned {
        let damage = battle_state.wild_pokemon.max_hp / 16;
        if damage > 0 {
            apply_damage(battle_state, battle_events, wild_target, damage);
            let w_hp = battle_state.wild_pokemon.current_hp;
            let w_max = battle_state.wild_pokemon.max_hp;
            battle_events.push(
                BattleEvent::StatusDamage {
                    target: wild_target,
                    status: StatusCondition::Burn,
                    damage,
                    new_hp: w_hp,
                    max_hp: w_max,
                },
            );
        }
    }
    proof {
        assert(final(battle_events)@ =~= old(battle_events)@ + spec_burn_events(
            *old(battle_state),
        ));
    }
}


/// The entity a wild-battle move from `source` strikes: the wild Pokémon
/// for the player, the active player Pokémon for the wild side.
pub open spec fn spec_opposite_entity(state: WildBattleState, source: BattleEntityRef) -> BattleEntityRef {
    match source {
        BattleEntityRef::Wild => BattleEntityRef::Player {
            team_index: state.player.active_pokemon_index,
        },
        _ => BattleEntityRef::Wild,
    }
}

/// The entity a wild-battle move from `source` strikes.
pub fn opposite_entity(state: &WildBattleState, source: BattleEntityRef) -> (r: BattleEntityRef)
    ensures
        r == spec_opposite_entity(*state, source),
{
    match source {
        BattleEntityRef::Wild => BattleEntityRef::Player {
            team_index: state.player.active_pokemon_index,
        },
        _ => BattleEntityRef::Wild,
    }
}

/// Executes item use: the wild battle's healing-only placeholder — a
/// potion-tier item heals the active Pokémon by its fixed amount, capped
/// at the maximum HP; no status cure exists yet; anything unknown heals
/// nothing but is still narrated and recorded.
pub fn execute_item(
    battle_state: &mut WildBattleState,
    battle_events: &mut Vec<BattleEvent>,
    item_id: String,
)
    requires
        old(battle_state).wf(),
    ensures
        final(battle_state).wf(),
        ({
            let idx = old(battle_state).player.active_pokemon_index;
            let p = old(battle_state).player.spec_active();
            let healed = crate::state::spec_healed_hp(
                p.current_hp,
                p.max_hp,
                crate::state::spec_item_heal_amount(item_id@),
            );
            let actual = (healed - p.current_hp) as u32;
            let heal_part: Seq<BattleEvent> = if actual > 0 {
                seq![
                    BattleEvent::Heal {
                        target: BattleEntityRef::Player { team_index: idx },
                        amount: actual,
                        new_hp: healed,
                        max_hp: p.max_hp,
                    },
                ]
            } else {
                Seq::empty()
            };
            &&& wild_updated_at(
                *old(battle_state),
                *final(battle_state),
                BattleEntityRef::Player { team_index: idx },
                BattlePokemon { current_hp: healed, ..p },
            )
            &&& old(battle_events)@.is_prefix_of(final(battle_events)@)
            &&& final(battle_events)@.len() == old(battle_events)@.len() + heal_part.len() + 2
            &&& final(battle_events)@.subrange(
                old(battle_events)@.len() as int,
                old(battle_events)@.len() as int + heal_part.len() as int,
            ) == heal_part
            &&& final(battle_events)@[final(battle_events)@.len() - 2] is GenericMessage
            &&& final(battle_events)@.last() matches BattleEvent::ItemUsed {
                item_id: id,
                target: t,
                ..
            } && id == item_id && t == Some(BattleEntityRef::Player { team_index: idx })
        }),
{
    let ghost base = battle_events@.len() as int;
    let ghost gid = item_id@;
    let player_name = battle_state.player.name.clone();
    let idx = battle_state.player.active_pokemon_index;
    let active_pokemon_name = battle_state.player.team[idx].name.clone();
    let item_name = item_display_name(&item_id);

    // the healing placeholder: fixed potion-tier amounts, capped at max HP
    let amount = crate::state::item_heal_amount(&item_id);
    let p_hp = battle_state.player.team[idx].current_hp;
    let p_max = battle_state.player.team[idx].max_hp;
    let healed = if p_max - p_hp < amount {
        p_max
    } else {
        p_hp + amount
    };
    battle_state.player.team[idx].current_hp = healed;
    proof {
        let oldp = old(battle_state).player.spec_active();
        assert(battle_state.player.team@ =~= old(battle_state).player.team@.update(
            idx as int,
            BattlePokemon { current_hp: healed, ..oldp },
        ));
    }
    let actual = healed - p_hp;
    if actual > 0 {
        battle_events.push(
            BattleEvent::Heal {
                target: BattleEntityRef::Player { team_index: idx },
                amount: actual,
                new_hp: healed,
                max_hp: p_max,
            },
        );
    }

    battle_events.push(
        BattleEvent::GenericMessage {
            message: BattleMessage::ItemUsedOn {
                user: player_name,
                item_name: item_name.clone(),
                target: active_pokemon_name,
            },
        },
    );
    let target = BattleEntityRef::Player { team_index: idx };
    battle_events.push(BattleEvent::ItemUsed { item_id, item_name, target: Some(target) });
    proof {
        let p = old(battle_state).player.spec_active();
        let healed_s = crate::state::spec_healed_hp(
            p.current_hp,
            p.max_hp,
            crate::state::spec_item_heal_amount(gid),
        );
        let actual_s = (healed_s - p.current_hp) as u32;
        if actual_s > 0 {
            assert(final(battle_events)@.subrange(base, base + 1) =~= seq![
                BattleEvent::Heal {
                    target: BattleEntityRef::Player { team_index: idx },
                    amount: actual_s,
                    new_hp: healed_s,
                    max_hp: p.max_hp,
                },
            ]);
        } else {
            assert(final(battle_events)@.subrange(base, base) =~= Seq::<BattleEvent>::empty());
        }
    }
}

/// The display name of an item, for narration.
fn item_display_name(item_id: &String) -> String {
    if crate::state::string_eq_str(item_id, "potion") {
        "Potion".to_owned()
    } else if crate::state::string_eq_str(item_id, "super_potion") {
        "Super Potion".to_owned()
    } else if crate::state::string_eq_str(item_id, "hyper_potion") {
        "Hyper Potion".to_owned()
    } else if crate::state::string_eq_str(item_id, "full_restore") {
        "Full Restore".to_owned()
    } else if crate::state::string_eq_str(item_id, "antidote") {
        "Antidote".to_owned()
    } else if crate::state::string_eq_str(item_id, "awakening") {
        "Awakening".to_owned()
    } else if crate::state::string_eq_str(item_id, "paralyze_heal") {
        "Paralyze Heal".to_owned()
    } else if crate::state::string_eq_str(item_id, "burn_heal") {
        "Burn Heal".to_owned()
    } else if crate::state::string_eq_str(item_id, "ice_heal") {
        "Ice Heal".to_owned()
    } else if crate::state::string_eq_str(item_id, "full_heal") {
        "Full Heal".to_owned()
    } else if crate::state::string_eq_str(item_id, "x_attack") {
        "X Attack".to_owned()
    } else if crate::state::string_eq_str(item_id, "x_defense") {
        "X Defense".to_owned()
    } else if crate::state::string_eq_str(item_id, "x_speed") {
        "X Speed".to_owned()
    } else if crate::state::string_eq_str(item_id, "x_special") {
        "X Special".to_owned()
    } else {
        item_id.clone()
    }
}

/// Executes a run attempt, which as yet always succeeds: the battle
/// finishes and the flight is narrated.
pub fn execute_run(battle_state: &mut WildBattleState, battle_events: &mut Vec<BattleEvent>)
    requires
        old(battle_state).wf(),
    ensures
        final(battle_state).wf(),
        *final(battle_state) == (WildBattleState {
            battle_phase: BattlePhase::Finished,
            ..*old(battle_state)
        }),
        final(battle_events)@ == old(battle_events)@ + seq![
            BattleEvent::GenericMessage {
                message: BattleMessage::PlayerFled {
                    player: old(battle_state).player.name,
                    wild: old(battle_state).wild_pokemon.name,
                },
            },
            BattleEvent::PlayerRanAway { success: true },
        ],
{
    let player_name = battle_state.player.name.clone();
    let wild_pokemon_name = battle_state.wild_pokemon.name.clone();
    battle_events.push(
        BattleEvent::GenericMessage {
            message: BattleMessage::PlayerFled { player: player_name, wild: wild_pokemon_name },
        },
    );
    battle_events.push(BattleEvent::PlayerRanAway { success: true });
    battle_state.battle_phase = BattlePhase::Finished;
    proof {
        assert(final(battle_events)@ =~= old(battle_events)@ + seq![
            BattleEvent::GenericMessage {
                message: BattleMessage::PlayerFled {
                    player: old(battle_state).player.name,
                    wild: old(battle_state).wild_pokemon.name,
                },
            },
            BattleEvent::PlayerRanAway { success: true },
        ]);
    }
}

/// Executes a wild flee attempt with the given roll: one chance in ten.
/// The flight is narrated either way; only success ends the battle.
pub fn execute_wild_flee(
    battle_state: &mut WildBattleState,
    battle_events: &mut Vec<BattleEvent>,
    flee_roll: u32,
)
    requires
        old(battle_state).wf(),
        flee_roll < 10,
    ensures
        final(battle_state).wf(),
        *final(battle_state) == (WildBattleState {
            battle_phase: if flee_roll == 0 {
                BattlePhase::Finished
            } else {
                old(battle_state).battle_phase
            },
            ..*old(battle_state)
        }),
        final(battle_events)@ == old(battle_events)@ + seq![
            BattleEvent::GenericMessage {
                message: BattleMessage::WildFledAnnounced { wild: old(battle_state).wild_pokemon.name },
            },
            BattleEvent::WildPokemonFled,
        ],
{
    let wild_pokemon_name = battle_state.wild_pokemon.name.clone();
    let success = flee_roll == 0;
    battle_events.push(
        BattleEvent::GenericMessage {
            message: BattleMessage::WildFledAnnounced { wild: wild_pokemon_name },
        },
    );
    battle_events.push(BattleEvent::WildPokemonFled);
    if success {
        battle_state.battle_phase = BattlePhase::Finished;
    }
    proof {
        assert(final(battle_events)@ =~= old(battle_events)@ + seq![
            BattleEvent::GenericMessage {
                message: BattleMessage::WildFledAnnounced { wild: old(battle_state).wild_pokemon.name },
            },
            BattleEvent::WildPokemonFled,
        ]);
    }
}

/// Executes a switch: the active index moves to the chosen team slot and
/// the incoming Pokémon is announced with its public view.
pub fn execute_switch(
    battle_state: &mut WildBattleState,
    battle_events: &mut Vec<BattleEvent>,
    team_index: usize,
)
    requires
        old(battle_state).wf(),
        team_index < old(battle_state).player.team@.len(),
    ensures
        final(battle_state).wf(),
        final(battle_state).player == (crate::state::BattlePlayer {
            active_pokemon_index: team_index,
            ..old(battle_state).player
        }),
        *final(battle_state) == (WildBattleState {
            player: final(battle_state).player,
            ..*old(battle_state)
        }),
        old(battle_events)@.is_prefix_of(final(battle_events)@),
        final(battle_events)@.len() == old(battle_events)@.len() + 2,
        final(battle_events)@[old(battle_events)@.len() as int] == (BattleEvent::GenericMessage {
            message: BattleMessage::SwitchAnnounced {
                outgoing: old(battle_state).player.spec_active().name,
                incoming: old(battle_state).player.team@[team_index as int].name,
            },
        }),
        final(battle_events)@[old(battle_events)@.len() as int + 1] matches BattleEvent::SwitchIn {
            pokemon_view: v,
            team_index: t,
        } && t == team_index && v.name == old(battle_state).player.team@[team_index as int].name
            && v.level == old(battle_state).player.team@[team_index as int].level,
{
    let out_idx = battle_state.player.active_pokemon_index;
    let outgoing_pokemon_name = battle_state.player.team[out_idx].name.clone();
    let incoming_pokemon_name = battle_state.player.team[team_index].name.clone();

    battle_state.player.active_pokemon_index = team_index;

    battle_events.push(
        BattleEvent::GenericMessage {
            message: BattleMessage::SwitchAnnounced {
                outgoing: outgoing_pokemon_name,
                incoming: incoming_pokemon_name,
            },
        },
    );

    let view = BattlePokemonPublicView::from_battle_pokemon(&battle_state.player.team[team_index]);
    battle_events.push(BattleEvent::SwitchIn { pokemon_view: view, team_index });
}

/// The capture success bound in permille: 300 at full HP, up to 700 at
/// zero HP, growing with the missing fraction of HP.
pub open spec fn spec_capture_permille(current_hp: u32, max_hp: u32) -> u32 {
    (300 + 400 * ((max_hp - current_hp) as int) / (max_hp as int)) as u32
}

/// Capture probability at zero HP is exactly 0.7, at full HP exactly 0.3.
pub proof fn lemma_capture_probability_bounds(max_hp: u32)
    requires
        max_hp >= 1,
    ensures
        spec_capture_permille(0, max_hp) == 700,
        spec_capture_permille(max_hp, max_hp) == 300,
{
    assert(400 * ((max_hp - 0) as int) / (max_hp as int) == 400) by (nonlinear_arith)
        requires
            max_hp >= 1,
    ;
    assert(400 * ((max_hp - max_hp) as int) / (max_hp as int) == 0) by (nonlinear_arith)
        requires
            max_hp >= 1,
    ;
}

/// The ball type an item id names; anything unknown throws a plain ball.
pub open spec fn spec_ball_type(ball_id: Seq<char>) -> BallType {
    if ball_id == "great_ball"@ {
        BallType::GreatBall
    } else if ball_id == "ultra_ball"@ {
        BallType::UltraBall
    } else {
        BallType::PokeBall
    }
}

/// Executes a capture attempt with the given rolls: success exactly when
/// the roll lands under 300 + 400*(1 - HP fraction) permille; three shakes
/// on success, the shake roll otherwise. Success finishes the battle. The
/// attempt is recorded in the capture history either way.
pub fn execute_capture(
    battle_state: &mut WildBattleState,
    battle_events: &mut Vec<BattleEvent>,
    ball_id: String,
    success_roll: u32,
    shakes_roll: u32,
)
    requires
        old(battle_state).wf(),
        success_roll < 1000,
        shakes_roll < 3,
    ensures
        final(battle_state).wf(),
        ({
            let wp = old(battle_state).wild_pokemon;
            let success = success_roll < spec_capture_permille(wp.current_hp, wp.max_hp);
            let shakes: u8 = if success {
                3u8
            } else {
                shakes_roll as u8
            };
            let attempt = CaptureAttempt {
                ball_type: spec_ball_type(ball_id@),
                shake_count: shakes,
                success,
                turn_number: old(battle_state).turn_number,
            };
            &&& final(battle_state).capture_attempts@ == old(battle_state).capture_attempts@.push(
                attempt,
            )
            &&& final(battle_state).battle_phase == if success {
                BattlePhase::Finished
            } else {
                old(battle_state).battle_phase
            }
            &&& *final(battle_state) == (WildBattleState {
                capture_attempts: final(battle_state).capture_attempts,
                battle_phase: final(battle_state).battle_phase,
                ..*old(battle_state)
            })
            &&& old(battle_events)@.is_prefix_of(final(battle_events)@)
            &&& final(battle_events)@.len() == old(battle_events)@.len() + 3
            &&& final(battle_events)@[old(battle_events)@.len() as int] is GenericMessage
            &&& final(battle_events)@[old(battle_events)@.len() as int + 1] == (BattleEvent::CaptureAttempt {
                ball_type: spec_ball_type(ball_id@),
                shake_count: shakes,
                success,
            })
            &&& final(battle_events)@[old(battle_events)@.len() as int + 2] is GenericMessage
        }),
{
    let player_name = battle_state.player.name.clone();
    let wild_pokemon_name = battle_state.wild_pokemon.name.clone();

    let (ball_type, ball_name) = if crate::state::string_eq_str(&ball_id, "great_ball") {
        (BallType::GreatBall, "Great Ball".to_owned())
    } else if crate::state::string_eq_str(&ball_id, "ultra_ball") {
        (BallType::UltraBall, "Ultra Ball".to_owned())
    } else {
        (BallType::PokeBall, "Poke Ball".to_owned())
    };

    battle_events.push(
        BattleEvent::GenericMessage {
            message: BattleMessage::BallThrown {
                player: player_name,
                ball_name,
                wild: wild_pokemon_name.clone(),
            },
        },
    );

    let current_hp = battle_state.wild_pokemon.current_hp;
    let max_hp = battle_state.wild_pokemon.max_hp;
    let missing: u64 = (max_hp - current_hp) as u64;
    proof {
        assert(0 <= 400 * (missing as int) / (max_hp as int) <= 400) by (nonlinear_arith)
            requires
                max_hp >= 1,
                0 <= missing <= max_hp,
        ;
    }
    let permille: u32 = 300 + ((400 * missing) / (max_hp as u64)) as u32;
    let success = success_roll < permille;
    let shakes: u8 = if success {
        3
    } else {
        shakes_roll as u8
    };

    battle_events.push(BattleEvent::CaptureAttempt { ball_type, shake_count: shakes, success });
    battle_state.capture_attempts.push(
        CaptureAttempt {
            ball_type,
            shake_count: shakes,
            success,
            turn_number: battle_state.turn_number,
        },
    );

    if success {
        battle_events.push(
            BattleEvent::GenericMessage {
                message: BattleMessage::CaptureSucceeded { wild: wild_pokemon_name },
            },
        );
        battle_state.battle_phase = BattlePhase::Finished;
    } else {
        battle_events.push(
            BattleEvent::GenericMessage {
                message: BattleMessage::BrokeFree { wild: wild_pokemon_name, shake_count: shakes },
            },
        );
    }
}


/// The chart a repository offers, if any.
pub open spec fn spec_chart_of(repo: Option<MoveRepository>) -> Option<TypeChart> {
    match repo {
        Some(r) => Some(r.type_chart),
        None => None,
    }
}

/// The spec-level value of an optional repository reference.
pub open spec fn spec_repo_of(repo: Option<&MoveRepository>) -> Option<MoveRepository> {
    match repo {
        Some(r) => Some(*r),
        None => None,
    }
}

/// The given repository, when present, is well-formed.
pub open spec fn repo_ok(repo: Option<&MoveRepository>) -> bool {
    match repo {
        Some(r) => r.wf(),
        None => true,
    }
}

/// The damage one Struggle use deals, under the given rolls: a 50-power
/// physical hit of the neutral type.
pub open spec fn spec_struggle_damage(
    state: WildBattleState,
    repo: Option<MoveRepository>,
    source: BattleEntityRef,
    crit: bool,
    factor: u32,
) -> u32 {
    let src = spec_wild_pokemon_at(state, source);
    let tgt = spec_wild_pokemon_at(state, spec_opposite_entity(state, source));
    let eff = spec_effectiveness(
        spec_chart_of(repo),
        PokemonType::Normal,
        tgt.pokemon_types@,
    );
    let stab = src.pokemon_types@.contains(PokemonType::Normal);
    spec_damage_u32(
        src.level,
        50,
        src.calculated_stats.attack,
        tgt.calculated_stats.defense,
        stab,
        eff,
        crit,
        factor,
    )
}

/// Executes Struggle under the given rolls: a 50-power physical hit of the
/// neutral type, with recoil to the user of exactly a quarter of the
/// damage dealt, floored; the recoil is never critical and always
/// neutrally effective.
#[verifier::rlimit(100)]
pub fn execute_struggle(
    battle_state: &mut WildBattleState,
    battle_events: &mut Vec<BattleEvent>,
    move_repository: Option<&MoveRepository>,
    source: BattleEntityRef,
    is_critical: bool,
    random_factor: u32,
)
    requires
        old(battle_state).wf(),
        repo_ok(move_repository),
        wild_entity_ok(*old(battle_state), source),
        85 <= random_factor <= 100,
    ensures
        final(battle_state).wf(),
        wild_identities_preserved(*old(battle_state), *final(battle_state)),
        wild_faints_unchanged(*old(battle_state), *final(battle_state)),
        wild_hp_nonincreasing(*old(battle_state), *final(battle_state)),
        wild_pending_unchanged(*old(battle_state), *final(battle_state)),
        final(battle_state).battle_phase == old(battle_state).battle_phase,
        final(battle_state).player.active_pokemon_index == old(battle_state).player.active_pokemon_index,
        final(battle_state).player.must_switch == old(battle_state).player.must_switch,
        final(battle_state).capture_attempts == old(battle_state).capture_attempts,
        final(battle_events)@.len() > old(battle_events)@.len(),
        old(battle_events)@.is_prefix_of(final(battle_events)@),
        // the target loses exactly the formula damage, the user exactly a
        // quarter of the damage dealt
        ({
            let dmg = spec_struggle_damage(
                *old(battle_state),
                spec_repo_of(move_repository),
                source,
                is_critical,
                random_factor,
            );
            let recoil = (dmg / 4) as u32;
            let tgt_ref = spec_opposite_entity(*old(battle_state), source);
            let src_pre = spec_wild_pokemon_at(*old(battle_state), source);
            let tgt_pre = spec_wild_pokemon_at(*old(battle_state), tgt_ref);
            &&& spec_wild_pokemon_at(*final(battle_state), tgt_ref).current_hp == spec_sat_sub(
                tgt_pre.current_hp,
                dmg,
            )
            &&& spec_wild_pokemon_at(*final(battle_state), source).current_hp == spec_sat_sub(
                src_pre.current_hp,
                recoil,
            )
        }),
        // recoil never lands as a critical hit and is always neutral
        forall|j: int|
            old(battle_events)@.len() <= j < final(battle_events)@.len() ==> match (#[trigger] final(battle_events)@[j]) {
                BattleEvent::DamageDealt { target: t, is_critical: c, effectiveness: e, damage: d, .. } => (
                t == source ==> (!c && e == (Effectiveness { num: 1u64, den: 1u64 }) && d
                    == spec_struggle_damage(
                    *old(battle_state),
                    spec_repo_of(move_repository),
                    source,
                    is_critical,
                    random_factor,
                ) / 4)),
                _ => true,
            },
{
    let source_name = match source {
        BattleEntityRef::Player { team_index } => battle_state.player.team[team_index].name.clone(),
        _ => battle_state.wild_pokemon.name.clone(),
    };

    battle_events.push(
        BattleEvent::GenericMessage {
            message: BattleMessage::MoveAnnounced {
                user: source_name.clone(),
                move_name: "Struggle".to_owned(),
            },
        },
    );

    let target = opposite_entity(battle_state, source);

    let (source_level, source_attack, source_has_normal) = match source {
        BattleEntityRef::Player { team_index } => {
            let p = &battle_state.player.team[team_index];
            (p.level, p.calculated_stats.attack, types_contain(&p.pokemon_types, PokemonType::Normal))
        },
        _ => {
            let p = &battle_state.wild_pokemon;
            (p.level, p.calculated_stats.attack, types_contain(&p.pokemon_types, PokemonType::Normal))
        },
    };
    let (target_defense, target_eff) = match target {
        BattleEntityRef::Player { team_index } => {
            let p = &battle_state.player.team[team_index];
            let eff = match move_repository {
                Some(repo) => crate::damage::calculate_type_effectiveness(
                    Some(&repo.type_chart),
                    PokemonType::Normal,
                    &p.pokemon_types,
                ),
                None => crate::damage::calculate_type_effectiveness(
                    None,
                    PokemonType::Normal,
                    &p.pokemon_types,
                ),
            };
            (p.calculated_stats.defense, eff)
        },
        _ => {
            let p = &battle_state.wild_pokemon;
            let eff = match move_repository {
                Some(repo) => crate::damage::calculate_type_effectiveness(
                    Some(&repo.type_chart),
                    PokemonType::Normal,
                    &p.pokemon_types,
                ),
                None => crate::damage::calculate_type_effectiveness(
                    None,
                    PokemonType::Normal,
                    &p.pokemon_types,
                ),
            };
            (p.calculated_stats.defense, eff)
        },
    };

    let damage = crate::damage::struggle_damage_from_rolls(
        source_level,
        source_attack,
        source_has_normal,
        target_defense,
        target_eff,
        is_critical,
        random_factor,
    );

    if damage > 0 {
        apply_damage_with_effectiveness(
            battle_state,
            battle_events,
            target,
            damage,
            target_eff,
            is_critical,
        );

        if is_critical {
            battle_events.push(
                BattleEvent::GenericMessage { message: BattleMessage::CriticalHit },
            );
        }

        let recoil_damage = damage / 4;
        if recoil_damage > 0 {
            battle_events.push(
                BattleEvent::GenericMessage {
                    message: BattleMessage::RecoilDamage { user: source_name },
                },
            );
            apply_damage_with_effectiveness(
                battle_state,
                battle_events,
                source,
                recoil_damage,
                Effectiveness { num: 1, den: 1 },
                false,
            );
        }
    }

    battle_events.push(
        BattleEvent::MoveUsed {
            source,
            move_id: 165,
            move_name: "Struggle".to_owned(),
            target,
        },
    );
}



/// Prefixes of the append-only event log compose.
pub proof fn lemma_events_prefix_trans(a: Seq<BattleEvent>, b: Seq<BattleEvent>, c: Seq<BattleEvent>)
    requires
        a.is_prefix_of(b),
        b.is_prefix_of(c),
    ensures
        a.is_prefix_of(c),
{
    assert(a =~= c.subrange(0, a.len() as int));
}

/// Neither acting entity's status or stat stages moved.
pub open spec fn effects_untouched(
    pre: WildBattleState,
    post: WildBattleState,
    a: BattleEntityRef,
    b: BattleEntityRef,
) -> bool {
    &&& spec_wild_pokemon_at(post, a).status == spec_wild_pokemon_at(pre, a).status
    &&& spec_wild_pokemon_at(post, a).stat_modifiers == spec_wild_pokemon_at(pre, a).stat_modifiers
    &&& spec_wild_pokemon_at(post, b).status == spec_wild_pokemon_at(pre, b).status
    &&& spec_wild_pokemon_at(post, b).stat_modifiers == spec_wild_pokemon_at(pre, b).stat_modifiers
}

/// What one applied move effect does to statuses and stages: ApplyStatus
/// sets the resolved target's status only if it had none; StatChange
/// folds its entries clamped into the stages; everything else (Heal
/// included) changes neither.
pub open spec fn effect_outcome_on(
    pre: WildBattleState,
    post: WildBattleState,
    eff: crate::moves::EffectData,
    source: BattleEntityRef,
    target: BattleEntityRef,
) -> bool {
    match eff {
        crate::moves::EffectData::ApplyStatus { status, target: et } => {
            let ar = crate::effects::spec_resolve_effect_target(et, source, target);
            spec_wild_pokemon_at(post, ar).status == if spec_wild_pokemon_at(pre, ar).status
                is None {
                Some(status)
            } else {
                spec_wild_pokemon_at(pre, ar).status
            }
        },
        crate::moves::EffectData::StatChange { changes, target: et } => {
            let ar = crate::effects::spec_resolve_effect_target(et, source, target);
            spec_wild_pokemon_at(post, ar).stat_modifiers
                == crate::effects::spec_apply_stat_changes(
                spec_wild_pokemon_at(pre, ar).stat_modifiers,
                changes@,
            )
        },
        _ => effects_untouched(pre, post, source, target),
    }
}

/// The id of the move a slot names: index past the list means the unknown
/// move, id zero.
pub open spec fn spec_move_id_of(state: WildBattleState, source: BattleEntityRef, move_index: int) -> u32 {
    let src = spec_wild_pokemon_at(state, source);
    if 0 <= move_index < src.moves@.len() {
        src.moves@[move_index].move_id
    } else {
        0u32
    }
}

/// The move data a repository holds for an id, if any.
pub open spec fn spec_move_lookup(repo: Option<MoveRepository>, move_id: u32) -> Option<MoveData> {
    match repo {
        Some(r) => match spec_find_move(r.moves@, move_id) {
            Some(k) => Some(r.moves@[k]),
            None => None,
        },
        None => None,
    }
}

/// A move list with one slot's PP spent: one point down, floored at zero.
pub open spec fn spec_moves_after_pp_spend(moves: Seq<crate::state::BattleMove>, move_index: int) -> Seq<
    crate::state::BattleMove,
> {
    if 0 <= move_index < moves.len() {
        let m = moves[move_index];
        moves.update(
            move_index,
            crate::state::BattleMove {
                current_pp: if m.current_pp > 0 {
                    (m.current_pp - 1) as u8
                } else {
                    0u8
                },
                ..m
            },
        )
    } else {
        moves
    }
}

/// Executes one use of a move slot under the given rolls. The user's PP
/// for that slot drops by one, floored at zero. A move the repository
/// knows deals exactly the damage formula's value for these rolls (its
/// secondary effect lands only when the roll is within its chance); an
/// unknown move falls back to a fixed ten-damage hit. No HP ever rises
/// and no faint flag moves.
#[verifier::rlimit(100)]
#[verifier::spinoff_prover]
pub fn execute_move(
    battle_state: &mut WildBattleState,
    battle_events: &mut Vec<BattleEvent>,
    move_repository: Option<&MoveRepository>,
    source: BattleEntityRef,
    move_index: usize,
    is_critical: bool,
    random_factor: u32,
    secondary_roll: u32,
)
    requires
        old(battle_state).wf(),
        repo_ok(move_repository),
        wild_entity_ok(*old(battle_state), source),
        85 <= random_factor <= 100,
        1 <= secondary_roll <= 100,
    ensures
        final(battle_state).wf(),
        wild_identities_preserved(*old(battle_state), *final(battle_state)),
        wild_faints_unchanged(*old(battle_state), *final(battle_state)),
        wild_hp_nonincreasing(*old(battle_state), *final(battle_state)),
        wild_pending_unchanged(*old(battle_state), *final(battle_state)),
        final(battle_state).battle_phase == old(battle_state).battle_phase,
        final(battle_state).player.active_pokemon_index == old(battle_state).player.active_pokemon_index,
        final(battle_state).player.must_switch == old(battle_state).player.must_switch,
        final(battle_state).capture_attempts == old(battle_state).capture_attempts,
        final(battle_events)@.len() > old(battle_events)@.len(),
        // the user spends one PP on the chosen slot
        spec_wild_pokemon_at(*final(battle_state), source).moves@ == spec_moves_after_pp_spend(
            spec_wild_pokemon_at(*old(battle_state), source).moves@,
            move_index as int,
        ),
        // the opponent keeps its move list
        spec_wild_pokemon_at(
            *final(battle_state),
            spec_opposite_entity(*old(battle_state), source),
        ).moves@ == spec_wild_pokemon_at(
            *old(battle_state),
            spec_opposite_entity(*old(battle_state), source),
        ).moves@,
        // the move is announced first and recorded last
        old(battle_events)@.is_prefix_of(final(battle_events)@),
        final(battle_events)@.len() >= old(battle_events)@.len() + 2,
        final(battle_events)@[old(battle_events)@.len() as int] is GenericMessage,
        final(battle_events)@.last() matches BattleEvent::MoveUsed {
            source: s_,
            move_id: mid_,
            target: t_,
            ..
        } && s_ == source && t_ == spec_opposite_entity(*old(battle_state), source) && mid_
            == spec_move_id_of(*old(battle_state), source, move_index as int),
        // the damage dealt is exactly the formula's value for these rolls,
        // and an effect fires exactly under its stated condition
        ({
            let tgt_ref = spec_opposite_entity(*old(battle_state), source);
            let src_pre = spec_wild_pokemon_at(*old(battle_state), source);
            let tgt_pre = spec_wild_pokemon_at(*old(battle_state), tgt_ref);
            let mid = spec_move_id_of(*old(battle_state), source, move_index as int);
            match spec_move_lookup(spec_repo_of(move_repository), mid) {
                Some(data) => ({
                    let r = spec_damage_result(
                        src_pre.level,
                        src_pre.calculated_stats,
                        src_pre.pokemon_types@,
                        tgt_pre.calculated_stats,
                        tgt_pre.pokemon_types@,
                        data,
                        spec_chart_of(spec_repo_of(move_repository)),
                        is_critical,
                        random_factor,
                    );
                    &&& spec_wild_pokemon_at(*final(battle_state), tgt_ref).current_hp
                        == spec_sat_sub(tgt_pre.current_hp, r.0)
                    &&& spec_wild_pokemon_at(*final(battle_state), source).current_hp
                        == src_pre.current_hp
                    &&& final(battle_events)@.last() matches BattleEvent::MoveUsed {
                        move_name: n_,
                        ..
                    } && n_ == data.name
                    // a damaging move's secondary effect lands exactly when
                    // damage fell and the roll is within the chance
                    &&& (data.power is Some ==> match data.secondary_effect {
                        Some(sec) => if r.0 > 0 && secondary_roll <= sec.chance {
                            effect_outcome_on(
                                *old(battle_state),
                                *final(battle_state),
                                sec.effect,
                                source,
                                tgt_ref,
                            )
                        } else {
                            effects_untouched(
                                *old(battle_state),
                                *final(battle_state),
                                source,
                                tgt_ref,
                            )
                        },
                        None => effects_untouched(
                            *old(battle_state),
                            *final(battle_state),
                            source,
                            tgt_ref,
                        ),
                    })
                    // a status move applies its primary effect
                    &&& (data.power is None ==> effect_outcome_on(
                        *old(battle_state),
                        *final(battle_state),
                        data.effect,
                        source,
                        tgt_ref,
                    ))
                }),
                None => ({
                    // graceful fallback: a fixed ten-damage hit, still with
                    // its DamageDealt and MoveUsed events
                    &&& spec_wild_pokemon_at(*final(battle_state), tgt_ref).current_hp
                        == spec_sat_sub(tgt_pre.current_hp, 10)
                    &&& spec_wild_pokemon_at(*final(battle_state), source).current_hp
                        == src_pre.current_hp
                    &&& final(battle_events)@.len() == old(battle_events)@.len() + 3
                    &&& final(battle_events)@[old(battle_events)@.len() as int + 1]
                        == (BattleEvent::DamageDealt {
                        target: tgt_ref,
                        damage: 10u32,
                        new_hp: spec_sat_sub(tgt_pre.current_hp, 10),
                        max_hp: tgt_pre.max_hp,
                        effectiveness: Effectiveness { num: 1u64, den: 1u64 },
                        is_critical: false,
                    })
                    &&& effects_untouched(*old(battle_state), *final(battle_state), source, tgt_ref)
                }),
            }
        }),
{
    // source name and the chosen move slot
    let (source_name, slot) = match source {
        BattleEntityRef::Player { team_index } => {
            let p = &battle_state.player.team[team_index];
            let slot = if move_index < p.moves.len() {
                Some(p.moves[move_index])
            } else {
                None
            };
            (p.name.clone(), slot)
        },
        _ => {
            let p = &battle_state.wild_pokemon;
            let slot = if move_index < p.moves.len() {
                Some(p.moves[move_index])
            } else {
                None
            };
            (p.name.clone(), slot)
        },
    };

    let move_id: u32 = match slot {
        Some(m) => m.move_id,
        None => 0,
    };

    // one repository lookup serves the name and the move data
    let details: Option<&MoveData> = match move_repository {
        Some(repo) => repo.get_move(move_id),
        None => None,
    };
    let move_name: String = match details {
        Some(d) => d.name.clone(),
        None => "Unknown Move".to_owned(),
    };
    battle_events.push(
        BattleEvent::GenericMessage {
            message: BattleMessage::MoveAnnounced {
                user: source_name,
                move_name: move_name.clone(),
            },
        },
    );
    let ghost g0 = battle_events@;
    proof {
        assert(g0[g0.len() - 1] is GenericMessage);
    }

    // spend one PP, floored at zero
    spend_pp(battle_state, source, move_index);

    let target = opposite_entity(battle_state, source);

    match details {
        Some(move_details) => {
            let repo = match move_repository {
                Some(r) => r,
                None => {
                    proof {
                        assert(false);
                    }
                    return ;
                },
            };
            let has_power = match move_details.power {
                Some(_) => true,
                None => false,
            };
            if has_power {
                resolve_damaging_move(
                    battle_state,
                    battle_events,
                    repo,
                    move_details,
                    source,
                    target,
                    is_critical,
                    random_factor,
                    secondary_roll,
                );
            } else {
                // status move: apply the primary effect
                apply_effect(battle_state, battle_events, &move_details.effect, source, target);
                proof {
                    assert(g0 =~= battle_events@.subrange(0, g0.len() as int));
                }
            }
        },
        None => {
            // unknown move: fixed fallback damage
            apply_damage(battle_state, battle_events, target, 10);
            proof {
                assert(g0 =~= battle_events@.subrange(0, g0.len() as int));
            }
        },
    }
    proof {
        assert(g0.is_prefix_of(battle_events@));
    }

    battle_events.push(BattleEvent::MoveUsed { source, move_id, move_name, target });
    proof {
        assert(g0 =~= final(battle_events)@.subrange(0, g0.len() as int));
        assert(final(battle_events)@[old(battle_events)@.len() as int] == g0[g0.len() - 1]);
    }
}

/// A copy of a type list (the damage call needs it free of the state
/// borrow).
fn clone_types(types: &Vec<PokemonType>) -> (r: Vec<PokemonType>)
    ensures
        r@ == types@,
{
    crate::state::clone_vec_copy(types)
}


/// Resolves the damaging part of a known move under the given rolls: the
/// target loses exactly the formula's damage; a secondary effect lands
/// only when its roll is within the chance and never touches HP.
#[verifier::rlimit(100)]
fn resolve_damaging_move(
    battle_state: &mut WildBattleState,
    battle_events: &mut Vec<BattleEvent>,
    repo: &MoveRepository,
    move_details: &MoveData,
    source: BattleEntityRef,
    target: BattleEntityRef,
    is_critical: bool,
    random_factor: u32,
    secondary_roll: u32,
)
    requires
        old(battle_state).wf(),
        repo.wf(),
        move_details.wf(),
        wild_entity_ok(*old(battle_state), source),
        target == spec_opposite_entity(*old(battle_state), source),
        85 <= random_factor <= 100,
        1 <= secondary_roll <= 100,
    ensures
        final(battle_state).wf(),
        wild_identities_preserved(*old(battle_state), *final(battle_state)),
        wild_faints_unchanged(*old(battle_state), *final(battle_state)),
        wild_hp_nonincreasing(*old(battle_state), *final(battle_state)),
        wild_pending_unchanged(*old(battle_state), *final(battle_state)),
        final(battle_state).battle_phase == old(battle_state).battle_phase,
        final(battle_state).player.active_pokemon_index == old(battle_state).player.active_pokemon_index,
        final(battle_state).player.must_switch == old(battle_state).player.must_switch,
        final(battle_state).capture_attempts == old(battle_state).capture_attempts,
        final(battle_events)@.len() >= old(battle_events)@.len(),
        old(battle_events)@.is_prefix_of(final(battle_events)@),
        spec_wild_pokemon_at(*final(battle_state), source).moves@ == spec_wild_pokemon_at(
            *old(battle_state),
            source,
        ).moves@,
        spec_wild_pokemon_at(*final(battle_state), target).moves@ == spec_wild_pokemon_at(
            *old(battle_state),
            target,
        ).moves@,
        ({
            let src_pre = spec_wild_pokemon_at(*old(battle_state), source);
            let tgt_pre = spec_wild_pokemon_at(*old(battle_state), target);
            let r = spec_damage_result(
                src_pre.level,
                src_pre.calculated_stats,
                src_pre.pokemon_types@,
                tgt_pre.calculated_stats,
                tgt_pre.pokemon_types@,
                *move_details,
                Some(repo.type_chart),
                is_critical,
                random_factor,
            );
            &&& spec_wild_pokemon_at(*final(battle_state), target).current_hp == spec_sat_sub(
                tgt_pre.current_hp,
                r.0,
            )
            &&& spec_wild_pokemon_at(*final(battle_state), source).current_hp
                == src_pre.current_hp
            &&& (match move_details.secondary_effect {
                Some(sec) => if r.0 > 0 && secondary_roll <= sec.chance {
                    effect_outcome_on(
                        *old(battle_state),
                        *final(battle_state),
                        sec.effect,
                        source,
                        target,
                    )
                } else {
                    effects_untouched(*old(battle_state), *final(battle_state), source, target)
                },
                None => effects_untouched(*old(battle_state), *final(battle_state), source, target),
            })
        }),
{
    let (source_level, source_stats, source_types) = match source {
        BattleEntityRef::Player { team_index } => {
            let p = &battle_state.player.team[team_index];
            (p.level, p.calculated_stats, clone_types(&p.pokemon_types))
        },
        _ => {
            let p = &battle_state.wild_pokemon;
            (p.level, p.calculated_stats, clone_types(&p.pokemon_types))
        },
    };
    let (target_stats, target_types) = match target {
        BattleEntityRef::Player { team_index } => {
            let p = &battle_state.player.team[team_index];
            (p.calculated_stats, clone_types(&p.pokemon_types))
        },
        _ => {
            let p = &battle_state.wild_pokemon;
            (p.calculated_stats, clone_types(&p.pokemon_types))
        },
    };

    let (damage, effectiveness, crit_out) = calculate_damage_from_rolls(
        source_level,
        &source_stats,
        &source_types,
        &target_stats,
        &target_types,
        move_details,
        Some(&repo.type_chart),
        is_critical,
        random_factor,
    );

    if damage > 0 {
        apply_damage_with_effectiveness(
            battle_state,
            battle_events,
            target,
            damage,
            effectiveness,
            crit_out,
        );

        // the chance-gated secondary effect
        match &move_details.secondary_effect {
            Some(secondary) => {
                if secondary_roll <= secondary.chance as u32 {
                    apply_effect(battle_state, battle_events, &secondary.effect, source, target);
                }
            },
            None => {},
        }
    } else {
        let eff_zero = effectiveness.is_zero();
        if !eff_zero {
            battle_events.push(
                BattleEvent::GenericMessage { message: BattleMessage::MoveFailedNarration },
            );
        }
    }
}


/// The wild side's choice: its first move slot with PP left, else
/// Struggle.
pub fn determine_wild_action(battle_state: &WildBattleState) -> (a: WildPokemonAction)
    ensures
        match a {
            WildPokemonAction::UseMove { move_index } => {
                &&& move_index < battle_state.wild_pokemon.moves@.len()
                &&& battle_state.wild_pokemon.moves@[move_index as int].current_pp > 0
                &&& forall|j: int|
                    0 <= j < move_index ==> (
                    #[trigger] battle_state.wild_pokemon.moves@[j]).current_pp == 0
            },
            WildPokemonAction::Struggle => forall|j: int|
                0 <= j < battle_state.wild_pokemon.moves@.len() ==> (
                #[trigger] battle_state.wild_pokemon.moves@[j]).current_pp == 0,
            WildPokemonAction::Flee => false,
        },
{
    let mut i: usize = 0;
    while i < battle_state.wild_pokemon.moves.len()
        invariant
            i <= battle_state.wild_pokemon.moves@.len(),
            forall|j: int|
                0 <= j < i ==> (#[trigger] battle_state.wild_pokemon.moves@[j]).current_pp == 0,
        decreases battle_state.wild_pokemon.moves@.len() - i,
    {
        if battle_state.wild_pokemon.moves[i].current_pp > 0 {
            return WildPokemonAction::UseMove { move_index: i };
        }
        i = i + 1;
    }
    WildPokemonAction::Struggle
}

/// Executes a single action for the given entity: the player's submitted
/// action, or the wild side's stored one. Rolls are drawn here; whatever
/// they come back as, identities are preserved, no HP rises, no faint
/// flag moves, and the phase can only stand or finish.
pub fn execute_action(
    battle_state: &mut WildBattleState,
    battle_events: &mut Vec<BattleEvent>,
    move_repository: Option<&MoveRepository>,
    source_entity: BattleEntityRef,
    action: PlayerAction,
    is_first_action: bool,
)
    requires
        old(battle_state).wf(),
        repo_ok(move_repository),
        wild_entity_ok(*old(battle_state), source_entity),
        source_entity is Player ==> match action {
            PlayerAction::SwitchPokemon { team_index } => team_index < old(battle_state).player.team@.len(),
            _ => true,
        },
    ensures
        final(battle_state).wf(),
        wild_identities_preserved(*old(battle_state), *final(battle_state)),
        wild_faints_unchanged(*old(battle_state), *final(battle_state)),
        old(battle_events)@.is_prefix_of(final(battle_events)@),
        final(battle_state).player_action == old(battle_state).player_action,
        final(battle_state).wild_action == old(battle_state).wild_action,
        final(battle_state).turn_order == old(battle_state).turn_order,
        final(battle_state).turn_number == old(battle_state).turn_number,
        final(battle_state).battle_id == old(battle_state).battle_id,
        final(battle_state).player.must_switch == old(battle_state).player.must_switch,
        final(battle_state).battle_phase == old(battle_state).battle_phase || final(battle_state).battle_phase == BattlePhase::Finished,
        // the phase can only move for one of the stated reasons
        final(battle_state).battle_phase != old(battle_state).battle_phase ==> match source_entity {
            BattleEntityRef::Player { .. } => (action matches PlayerAction::Run || action matches PlayerAction::UseItem { is_capture_item: true, .. }),
            _ => old(battle_state).wild_action matches Some(WildPokemonAction::Flee),
        },
        final(battle_state).player.team@.len() == old(battle_state).player.team@.len(),
{
    match source_entity {
        BattleEntityRef::Player { .. } => {
            match action {
                PlayerAction::UseMove { move_index } => {
                    let is_critical = random_below(16) == 0;
                    let random_factor = 85 + random_below(16);
                    let secondary_roll = 1 + random_below(100);
                    execute_move(
                        battle_state,
                        battle_events,
                        move_repository,
                        source_entity,
                        move_index,
                        is_critical,
                        random_factor,
                        secondary_roll,
                    );
                },
                PlayerAction::SwitchPokemon { team_index } => {
                    execute_switch(battle_state, battle_events, team_index);
                },
                PlayerAction::UseItem { item_id, is_capture_item } => {
                    if is_capture_item {
                        let success_roll = random_below(1000);
                        let shakes_roll = random_below(3);
                        execute_capture(
                            battle_state,
                            battle_events,
                            item_id,
                            success_roll,
                            shakes_roll,
                        );
                    } else {
                        execute_item(battle_state, battle_events, item_id);
                    }
                },
                PlayerAction::Run => {
                    execute_run(battle_state, battle_events);
                },
            }
        },
        BattleEntityRef::Wild => {
            let wild_action = match battle_state.wild_action {
                Some(a) => a,
                None => WildPokemonAction::Struggle,
            };
            match wild_action {
                WildPokemonAction::UseMove { move_index } => {
                    let is_critical = random_below(16) == 0;
                    let random_factor = 85 + random_below(16);
                    let secondary_roll = 1 + random_below(100);
                    execute_move(
                        battle_state,
                        battle_events,
                        move_repository,
                        source_entity,
                        move_index,
                        is_critical,
                        random_factor,
                        secondary_roll,
                    );
                },
                WildPokemonAction::Struggle => {
                    let is_critical = random_below(16) == 0;
                    let random_factor = 85 + random_below(16);
                    execute_struggle(
                        battle_state,
                        battle_events,
                        move_repository,
                        source_entity,
                        is_critical,
                        random_factor,
                    );
                },
                WildPokemonAction::Flee => {
                    let flee_roll = random_below(10);
                    execute_wild_flee(battle_state, battle_events, flee_roll);
                },
            }
        },
        _ => {
            proof {
                assert(false);
            }
        },
    }
}


/// Runs the two ordered actions of a wild turn: the first entity acts,
/// faints are checked, and the second acts only if that check found
/// nothing — the preserved quirk of the wild resolver.
fn run_turn_actions(
    battle_state: &mut WildBattleState,
    battle_events: &mut Vec<BattleEvent>,
    move_repository: Option<&MoveRepository>,
    turn_order: TurnOrder,
)
    requires
        old(battle_state).wf(),
        repo_ok(move_repository),
        match old(battle_state).player_action {
            Some(PlayerAction::SwitchPokemon { team_index }) => team_index < old(battle_state).player.team@.len(),
            _ => true,
        },
    ensures
        final(battle_state).wf(),
        wild_identities_preserved(*old(battle_state), *final(battle_state)),
        wild_faints_monotone(*old(battle_state), *final(battle_state)),
        final(battle_state).player_action == old(battle_state).player_action,
        final(battle_state).wild_action == old(battle_state).wild_action,
        final(battle_state).turn_order == old(battle_state).turn_order,
        final(battle_state).turn_number == old(battle_state).turn_number,
        final(battle_state).battle_id == old(battle_state).battle_id,
        final(battle_state).player.must_switch == old(battle_state).player.must_switch,
        final(battle_state).player.team@.len() == old(battle_state).player.team@.len(),
        old(battle_events)@.is_prefix_of(final(battle_events)@),
        final(battle_state).battle_phase == old(battle_state).battle_phase || final(battle_state).battle_phase == BattlePhase::Finished,
        // a phase that moved did so for one of the stated reasons
        final(battle_state).battle_phase != old(battle_state).battle_phase ==> (final(battle_state).wild_pokemon.is_fainted || old(battle_state).player_action matches Some(PlayerAction::Run) || old(battle_state).player_action matches Some(PlayerAction::UseItem { is_capture_item: true, .. }) || old(battle_state).wild_action matches Some(WildPokemonAction::Flee)),
{
    let first_action: Option<PlayerAction> = match turn_order {
        TurnOrder::PlayerFirst => match &battle_state.player_action {
            Some(a) => Some(a.clone()),
            None => None,
        },
        TurnOrder::WildFirst => match battle_state.wild_action {
            Some(_) => Some(PlayerAction::Run),
            None => None,
        },
    };
    let second_action: Option<PlayerAction> = match turn_order {
        TurnOrder::PlayerFirst => match battle_state.wild_action {
            Some(_) => Some(PlayerAction::Run),
            None => None,
        },
        TurnOrder::WildFirst => match &battle_state.player_action {
            Some(a) => Some(a.clone()),
            None => None,
        },
    };
    let first_entity = match turn_order {
        TurnOrder::PlayerFirst => BattleEntityRef::Player {
            team_index: battle_state.player.active_pokemon_index,
        },
        TurnOrder::WildFirst => BattleEntityRef::Wild,
    };
    let second_entity = match turn_order {
        TurnOrder::PlayerFirst => BattleEntityRef::Wild,
        TurnOrder::WildFirst => BattleEntityRef::Player {
            team_index: battle_state.player.active_pokemon_index,
        },
    };

    let ghost e0 = battle_events@;
    match first_action {
        Some(action) => {
            execute_action(
                battle_state,
                battle_events,
                move_repository,
                first_entity,
                action,
                true,
            );
            let ghost e1 = battle_events@;
            let fainted = check_faints(battle_state, battle_events);
            proof {
                assert(e1.is_prefix_of(battle_events@)) by {
                    assert(e1 =~= battle_events@.subrange(0, e1.len() as int));
                };
                lemma_events_prefix_trans(e0, e1, battle_events@);
            }
            if !fainted {
                match second_action {
                    Some(action) => {
                        let ghost e2 = battle_events@;
                        execute_action(
                            battle_state,
                            battle_events,
                            move_repository,
                            second_entity,
                            action,
                            false,
                        );
                        proof {
                            lemma_events_prefix_trans(e0, e2, battle_events@);
                        }
                        let ghost e3 = battle_events@;
                        check_faints(battle_state, battle_events);
                        proof {
                            assert(e3.is_prefix_of(battle_events@)) by {
                                assert(e3 =~= battle_events@.subrange(0, e3.len() as int));
                            };
                            lemma_events_prefix_trans(e0, e3, battle_events@);
                        }
                    },
                    None => {},
                }
            }
        },
        None => {},
    }
}

/// Processes a single turn of a wild battle: order by speed (ties to the
/// player), execute the first action, skip the second whenever anything
/// fainted, apply end-of-turn Burn damage, check faints and battle end,
/// then move to the next phase and clear the pending actions. Faint
/// flags are never unset, identities never change, and the closing phase
/// is exactly one of waiting-for-action, waiting-for-switch or finished.
#[verifier::rlimit(100)]
pub fn process_turn(
    battle_state: &mut WildBattleState,
    move_repository: Option<&MoveRepository>,
) -> (battle_events: Vec<BattleEvent>)
    requires
        old(battle_state).wf(),
        repo_ok(move_repository),
        old(battle_state).battle_phase == BattlePhase::ProcessingTurn,
        old(battle_state).turn_number < 0xffff_ffffu32,
        match old(battle_state).player_action {
            Some(PlayerAction::SwitchPokemon { team_index }) => team_index < old(battle_state).player.team@.len(),
            _ => true,
        },
    ensures
        final(battle_state).wf(),
        wild_identities_preserved(*old(battle_state), *final(battle_state)),
        wild_faints_monotone(*old(battle_state), *final(battle_state)),
        final(battle_state).player_action is None,
        final(battle_state).wild_action is None,
        final(battle_state).turn_order is None,
        // the turn closes in exactly one of three phases
        (final(battle_state).battle_phase == BattlePhase::WaitingForPlayerAction || final(battle_state).battle_phase == BattlePhase::WaitingForSwitch || final(battle_state).battle_phase
            == BattlePhase::Finished),
        // a switch is demanded only of a fainted active with a healthy bench
        final(battle_state).battle_phase == BattlePhase::WaitingForSwitch ==> (final(battle_state).player.spec_active().is_fainted && final(battle_state).player.spec_has_healthy() && final(battle_state).player.must_switch),
        // play continues only while the active can still fight
        final(battle_state).battle_phase == BattlePhase::WaitingForPlayerAction ==> !final(battle_state).player.spec_active().is_fainted,
        // the turn counter moves exactly when the battle continues
        (final(battle_state).battle_phase == BattlePhase::WaitingForPlayerAction || final(battle_state).battle_phase == BattlePhase::WaitingForSwitch) ==> final(battle_state).turn_number == old(battle_state).turn_number + 1,
        final(battle_state).turn_number == old(battle_state).turn_number || final(battle_state).turn_number == old(battle_state).turn_number + 1,
        // a battle that ended before the closing step keeps its turn number
        final(battle_state).turn_number == old(battle_state).turn_number + 1 ==> (final(battle_state).battle_phase == BattlePhase::WaitingForPlayerAction || final(battle_state).battle_phase == BattlePhase::WaitingForSwitch || (final(battle_state).player.spec_active().is_fainted && !final(battle_state).player.spec_has_healthy())),
        // the turn opens by announcing the speed-determined order, ties to
        // the player
        battle_events@.len() >= 1,
        battle_events@[0] == (BattleEvent::GenericMessage {
            message: BattleMessage::TurnOrderAnnounced {
                turn_number: old(battle_state).turn_number,
                order: spec_turn_order(*old(battle_state)),
            },
        }),
        // a finished battle always has a stated ending
        final(battle_state).battle_phase == BattlePhase::Finished ==> (final(battle_state).wild_pokemon.is_fainted || final(battle_state).player.spec_all_fainted() || (final(battle_state).player.spec_active().is_fainted && !final(battle_state).player.spec_has_healthy()) || old(battle_state).player_action matches Some(PlayerAction::Run) || old(battle_state).player_action matches Some(PlayerAction::UseItem { is_capture_item: true, .. }) || old(battle_state).wild_action matches Some(WildPokemonAction::Flee)),
{
    let mut battle_events: Vec<BattleEvent> = Vec::new();

    // --- determine turn order ---
    let turn_order = determine_turn_order(battle_state);
    battle_state.turn_order = Some(turn_order);

    battle_events.push(
        BattleEvent::GenericMessage {
            message: BattleMessage::TurnOrderAnnounced {
                turn_number: battle_state.turn_number,
                order: turn_order,
            },
        },
    );
    let ghost g0 = battle_events@;

    // --- execute actions: the second is skipped after any faint ---
    run_turn_actions(battle_state, &mut battle_events, move_repository, turn_order);

    // --- end-of-turn effects, then their faints ---
    let ghost g1 = battle_events@;
    apply_end_of_turn_effects(battle_state, &mut battle_events);
    proof {
        assert(g1.is_prefix_of(battle_events@)) by {
            assert(g1 =~= battle_events@.subrange(0, g1.len() as int));
        };
        lemma_events_prefix_trans(g0, g1, battle_events@);
    }
    let ghost g2 = battle_events@;
    check_faints(battle_state, &mut battle_events);
    proof {
        assert(g2.is_prefix_of(battle_events@)) by {
            assert(g2 =~= battle_events@.subrange(0, g2.len() as int));
        };
        lemma_events_prefix_trans(g0, g2, battle_events@);
        assert(battle_events@[0] == g0[0]);
    }

    // --- battle end check ---
    check_battle_end(battle_state);

    // --- next phase ---
    match battle_state.battle_phase {
        BattlePhase::ProcessingTurn => {
            battle_state.turn_number = battle_state.turn_number + 1;

            let idx = battle_state.player.active_pokemon_index;
            let player_active_fainted = battle_state.player.team[idx].is_fainted;
            let can_player_switch = battle_state.player.has_healthy_member();

            if player_active_fainted && can_player_switch {
                battle_state.battle_phase = BattlePhase::WaitingForSwitch;
                battle_state.player.must_switch = true;
            } else if player_active_fainted {
                battle_state.battle_phase = BattlePhase::Finished;
            } else {
                battle_state.battle_phase = BattlePhase::WaitingForPlayerAction;
            }
        },
        _ => {},
    }

    // --- clear the pending actions ---
    battle_state.player_action = None;
    battle_state.wild_action = None;
    battle_state.turn_order = None;

    battle_events
}


/// Spends one PP on the chosen slot of the addressed Pokémon, floored at
/// zero; an index past the list spends nothing.
fn spend_pp(battle_state: &mut WildBattleState, source: BattleEntityRef, move_index: usize)
    requires
        old(battle_state).wf(),
        wild_entity_ok(*old(battle_state), source),
    ensures
        final(battle_state).wf(),
        wild_entity_ok(*final(battle_state), source),
        ({
            let pre = spec_wild_pokemon_at(*old(battle_state), source);
            let post = spec_wild_pokemon_at(*final(battle_state), source);
            &&& post.moves@ == spec_moves_after_pp_spend(pre.moves@, move_index as int)
            &&& post == (BattlePokemon { moves: post.moves, ..pre })
            &&& wild_updated_at(*old(battle_state), *final(battle_state), source, post)
        }),
        wild_identities_preserved(*old(battle_state), *final(battle_state)),
        wild_faints_unchanged(*old(battle_state), *final(battle_state)),
        wild_hp_nonincreasing(*old(battle_state), *final(battle_state)),
        wild_pending_unchanged(*old(battle_state), *final(battle_state)),
        final(battle_state).battle_phase == old(battle_state).battle_phase,
        final(battle_state).player.active_pokemon_index == old(battle_state).player.active_pokemon_index,
        final(battle_state).player.must_switch == old(battle_state).player.must_switch,
        final(battle_state).capture_attempts == old(battle_state).capture_attempts,
{
    match source {
        BattleEntityRef::Player { team_index } => {
            if move_index < battle_state.player.team[team_index].moves.len() {
                let pp = battle_state.player.team[team_index].moves[move_index].current_pp;
                if pp > 0 {
                    battle_state.player.team[team_index].moves[move_index].current_pp = pp - 1;
                }
            }
            proof {
                let pre = spec_wild_pokemon_at(*old(battle_state), source);
                let post = spec_wild_pokemon_at(*final(battle_state), source);
                assert(post.moves@ =~= spec_moves_after_pp_spend(pre.moves@, move_index as int));
                assert(battle_state.player.team@ =~= old(battle_state).player.team@.update(
                    team_index as int,
                    post,
                ));
            }
        },
        _ => {
            if move_index < battle_state.wild_pokemon.moves.len() {
                let pp = battle_state.wild_pokemon.moves[move_index].current_pp;
                if pp > 0 {
                    battle_state.wild_pokemon.moves[move_index].current_pp = pp - 1;
                }
            }
            proof {
                let pre = spec_wild_pokemon_at(*old(battle_state), source);
                let post = spec_wild_pokemon_at(*final(battle_state), source);
                assert(post.moves@ =~= spec_moves_after_pp_spend(pre.moves@, move_index as int));
            }
        },
    }
}


/// Executes a capture attempt, rolling the success chance and the shakes;
/// whatever the rolls, success sets exactly the recorded attempt and only
/// success finishes the battle.
pub fn execute_capture_with_rng(
    battle_state: &mut WildBattleState,
    battle_events: &mut Vec<BattleEvent>,
    ball_id: String,
)
    requires
        old(battle_state).wf(),
    ensures
        final(battle_state).wf(),
        final(battle_state).capture_attempts@.len() == old(battle_state).capture_attempts@.len()
            + 1,
        final(battle_state).battle_phase == if final(battle_state).capture_attempts@.last().success {
            BattlePhase::Finished
        } else {
            old(battle_state).battle_phase
        },
{
    let success_roll = random_below(1000);
    let shakes_roll = random_below(3);
    execute_capture(battle_state, battle_events, ball_id, success_roll, shakes_roll);
}

} // verus!
