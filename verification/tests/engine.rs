use battle_engine::damage::{calculate_damage_from_rolls, Effectiveness};
use battle_engine::moves::{
    EffectData, MoveCategory, MoveData, PokemonType, TargetType, TypeChart,
};
use battle_engine::pvp::calculate_pvp_exp_gain;
use battle_engine::state::{
    BattleEvent, BattleMove, BattlePhase, BattlePlayer, BattlePokemon, BattlePvPPhase,
    PlayerAction, PvPBattleOutcome, PvPBattleState, WildBattleState,
};
use battle_engine::stats::{
    BattleStatModifiers, Nature, StatName, StatSet,
};
use battle_engine::wild::{execute_capture, execute_struggle, process_turn};

fn stats(hp: u32, atk: u32, def: u32, spa: u32, spd: u32, spe: u32) -> StatSet<u32> {
    StatSet { hp, attack: atk, defense: def, special_attack: spa, special_defense: spd, speed: spe }
}

fn mon(name: &str, level: u32, s: StatSet<u32>) -> BattlePokemon {
    BattlePokemon {
        template_id: 1,
        name: name.to_string(),
        level,
        pokemon_types: vec![PokemonType::Normal],
        ability: "none".to_string(),
        moves: vec![BattleMove { move_id: 1, current_pp: 10, max_pp: 10 }],
        instance_id: "id".to_string(),
        base_exp: 60,
        exp: 0,
        max_exp: 100,
        calculated_stats: s,
        ivs: StatSet::default(),
        evs: StatSet::default(),
        nature: Nature::Hardy,
        current_hp: s.hp,
        max_hp: s.hp,
        status: None,
        status_turns: 0,
        volatile_statuses: Vec::new(),
        stat_modifiers: BattleStatModifiers::default(),
        is_fainted: false,
        position: 0,
        is_wild: false,
    }
}

fn tackle() -> MoveData {
    MoveData {
        id: 1,
        name: "Tackle".to_string(),
        accuracy: Some(100),
        power: Some(60),
        pp: 10,
        priority: 0,
        move_type: PokemonType::Normal,
        damage_class: MoveCategory::Physical,
        target: TargetType::NormalOpponent,
        effect: EffectData::Damage {
            multi_hit: None,
            crit_stage_bonus: None,
            drain_percent: None,
            recoil_damage_percent: None,
        },
        secondary_effect: None,
        description: String::new(),
    }
}

fn wild_state(player_mon: BattlePokemon, wild_mon: BattlePokemon) -> WildBattleState {
    WildBattleState {
        battle_id: 1,
        player: BattlePlayer {
            player_id: "p1".to_string(),
            name: "Player".to_string(),
            team: vec![player_mon],
            active_pokemon_index: 0,
            side_effects: Default::default(),
            last_action_submitted: None,
            must_switch: false,
        },
        wild_pokemon: wild_mon,
        turn_number: 1,
        battle_phase: BattlePhase::ProcessingTurn,
        player_action: None,
        wild_action: None,
        turn_order: None,
        field_state: Default::default(),
        battle_log: Vec::new(),
        capture_attempts: Vec::new(),
    }
}

// level-50 attacker (Attack 100), 60-power physical move against a
// level-50 defender (Defense 80), neutral chart, non-critical, the random
// factor at 1.0: the formula yields floor(((2*50/5+2)*60*100/80)/50+2) = 35.
#[test]
fn damage_formula_scenario() {
    let atk = stats(100, 100, 80, 60, 60, 70);
    let def = stats(100, 90, 80, 60, 60, 60);
    let source_types = vec![PokemonType::Fire];
    let target_types = vec![PokemonType::Water];
    let chart = TypeChart::new();
    let (dmg, eff, crit) = calculate_damage_from_rolls(
        50, &atk, &source_types, &def, &target_types, &tackle(), Some(&chart), false, 100,
    );
    assert_eq!(dmg, 35);
    assert_eq!(eff, Effectiveness { num: 100, den: 100 });
    assert!(!crit);
}

// Effectiveness zero forces damage to exactly zero.
#[test]
fn zero_effectiveness_zero_damage() {
    let atk = stats(100, 100, 80, 60, 60, 70);
    let def = stats(100, 90, 80, 60, 60, 60);
    let source_types = vec![PokemonType::Normal];
    let target_types = vec![PokemonType::Phantom];
    let mut chart = TypeChart::new();
    chart.set(PokemonType::Normal, PokemonType::Phantom, 0);
    let (dmg, eff, _) = calculate_damage_from_rolls(
        50, &atk, &source_types, &def, &target_types, &tackle(), Some(&chart), true, 100,
    );
    assert_eq!(dmg, 0);
    assert_eq!(eff.num, 0);
}

// STAB scales the scenario damage by 3/2.
#[test]
fn stab_multiplies_by_three_halves() {
    let atk = stats(100, 100, 80, 60, 60, 70);
    let def = stats(100, 90, 80, 60, 60, 60);
    let source_types = vec![PokemonType::Normal];
    let target_types = vec![PokemonType::Water];
    let chart = TypeChart::new();
    let (dmg, _, _) = calculate_damage_from_rolls(
        50, &atk, &source_types, &def, &target_types, &tackle(), Some(&chart), false, 100,
    );
    // floor(35.25 * 1.5) on the exact rational: (1650/50+2)*1.5 = 52.5 -> 52
    assert_eq!(dmg, 52);
}

// Stat-stage application is always clamped to [-6, 6]; a no-op at the
// bound emits no StatChange event.
#[test]
fn stat_stage_clamped_at_bound() {
    let mut p = mon("A", 50, stats(100, 100, 80, 60, 60, 70));
    p.stat_modifiers.battle_stats.attack = 6;
    let (new_stage, at_limit) =
        battle_engine::effects::apply_stat_change(&mut p, StatName::Attack, 3);
    assert_eq!(new_stage, 6);
    assert!(at_limit);
    let (new_stage, at_limit) =
        battle_engine::effects::apply_stat_change(&mut p, StatName::Attack, -2);
    assert_eq!(new_stage, 4);
    assert!(!at_limit);
}

// HP never underflows below zero, whatever the damage amount.
#[test]
fn hp_never_underflows() {
    let mut state = wild_state(
        mon("A", 50, stats(100, 100, 80, 60, 60, 70)),
        mon("W", 50, stats(90, 90, 80, 60, 60, 60)),
    );
    let mut events = Vec::new();
    battle_engine::effects::apply_damage(
        &mut state,
        &mut events,
        battle_engine::state::BattleEntityRef::Wild,
        1000000,
    );
    assert_eq!(state.wild_pokemon.current_hp, 0);
}

// Repeated faint checks without intervening damage never double-emit.
#[test]
fn faint_check_never_double_emits() {
    let mut state = wild_state(
        mon("A", 50, stats(100, 100, 80, 60, 60, 70)),
        mon("W", 50, stats(90, 90, 80, 60, 60, 60)),
    );
    state.wild_pokemon.current_hp = 0;
    let mut events = Vec::new();
    let fainted = battle_engine::wild::check_faints(&mut state, &mut events);
    assert!(fainted);
    let n = events.len();
    let fainted_again = battle_engine::wild::check_faints(&mut state, &mut events);
    assert!(!fainted_again);
    assert_eq!(events.len(), n);
}

// The strictly faster actor resolves first in a wild turn; a tie goes to
// the player.
#[test]
fn faster_actor_resolves_first() {
    let state = wild_state(
        mon("A", 50, stats(100, 100, 80, 60, 60, 70)),
        mon("W", 50, stats(90, 90, 80, 60, 60, 60)),
    );
    let order = battle_engine::wild::determine_turn_order(&state);
    assert!(matches!(order, battle_engine::state::TurnOrder::PlayerFirst));
    let state2 = wild_state(
        mon("A", 50, stats(100, 100, 80, 60, 60, 50)),
        mon("W", 50, stats(90, 90, 80, 60, 60, 60)),
    );
    let order2 = battle_engine::wild::determine_turn_order(&state2);
    assert!(matches!(order2, battle_engine::state::TurnOrder::WildFirst));
}

// Capture at zero HP succeeds with probability 0.7, at full HP 0.3: the
// permille bound is exactly 700 and 300, checked through the roll edges.
#[test]
fn capture_probability_bounds() {
    // zero HP: rolls below 700 succeed, 700 and above fail
    let mut state = wild_state(
        mon("A", 50, stats(100, 100, 80, 60, 60, 70)),
        mon("W", 50, stats(90, 90, 80, 60, 60, 60)),
    );
    state.wild_pokemon.current_hp = 0;
    let mut events = Vec::new();
    execute_capture(&mut state, &mut events, "poke_ball".to_string(), 699, 0);
    assert!(state.capture_attempts.last().unwrap().success);
    let mut state2 = wild_state(
        mon("A", 50, stats(100, 100, 80, 60, 60, 70)),
        mon("W", 50, stats(90, 90, 80, 60, 60, 60)),
    );
    state2.wild_pokemon.current_hp = 0;
    let mut events2 = Vec::new();
    execute_capture(&mut state2, &mut events2, "poke_ball".to_string(), 700, 0);
    assert!(!state2.capture_attempts.last().unwrap().success);
    // full HP: rolls below 300 succeed
    let mut state3 = wild_state(
        mon("A", 50, stats(100, 100, 80, 60, 60, 70)),
        mon("W", 50, stats(90, 90, 80, 60, 60, 60)),
    );
    let mut events3 = Vec::new();
    execute_capture(&mut state3, &mut events3, "poke_ball".to_string(), 299, 0);
    assert!(state3.capture_attempts.last().unwrap().success);
    let mut state4 = wild_state(
        mon("A", 50, stats(100, 100, 80, 60, 60, 70)),
        mon("W", 50, stats(90, 90, 80, 60, 60, 60)),
    );
    let mut events4 = Vec::new();
    execute_capture(&mut state4, &mut events4, "poke_ball".to_string(), 300, 1);
    assert!(!state4.capture_attempts.last().unwrap().success);
    assert!(matches!(state4.battle_phase, BattlePhase::ProcessingTurn));
    assert!(matches!(state3.battle_phase, BattlePhase::Finished));
}

// Struggle recoil always equals floor(damage_dealt / 4), lands on the
// user, and is never critical.
#[test]
fn struggle_recoil_quarter_never_critical() {
    let mut state = wild_state(
        mon("A", 50, stats(100, 100, 80, 60, 60, 70)),
        mon("W", 50, stats(90, 90, 80, 60, 60, 60)),
    );
    let player_ref = battle_engine::state::BattleEntityRef::Player { team_index: 0 };
    let mut events = Vec::new();
    let wild_hp_before = state.wild_pokemon.current_hp;
    let player_hp_before = state.player.team[0].current_hp;
    execute_struggle(&mut state, &mut events, None, player_ref, false, 100);
    let dealt = wild_hp_before - state.wild_pokemon.current_hp;
    let recoil = player_hp_before - state.player.team[0].current_hp;
    assert!(dealt > 0);
    assert_eq!(recoil, dealt / 4);
    for e in &events {
        if let BattleEvent::DamageDealt { target, is_critical, .. } = e {
            if matches!(target, battle_engine::state::BattleEntityRef::Player { .. }) {
                assert!(!*is_critical);
            }
        }
    }
}

// A full wild turn leaves the state in one of the three closing phases
// and clears the pending actions.
#[test]
fn wild_turn_closes_cleanly() {
    let mut state = wild_state(
        mon("A", 50, stats(100, 100, 80, 60, 60, 70)),
        mon("W", 50, stats(90, 90, 80, 60, 60, 60)),
    );
    state.player_action = Some(PlayerAction::UseMove { move_index: 0 });
    state.wild_action = Some(battle_engine::state::WildPokemonAction::UseMove { move_index: 0 });
    let events = process_turn(&mut state, None);
    assert!(!events.is_empty());
    assert!(state.player_action.is_none());
    assert!(state.wild_action.is_none());
    assert!(matches!(
        state.battle_phase,
        BattlePhase::WaitingForPlayerAction | BattlePhase::WaitingForSwitch | BattlePhase::Finished
    ));
}

// Both PvP actives fainting with no bench ends in a draw.
#[test]
fn simultaneous_faint_is_draw() {
    let mut a = mon("A", 50, stats(100, 100, 80, 60, 60, 70));
    let mut b = mon("B", 50, stats(90, 90, 80, 60, 60, 60));
    a.current_hp = 0;
    a.is_fainted = true;
    b.current_hp = 0;
    b.is_fainted = true;
    let p1 = BattlePlayer {
        player_id: "p1".to_string(),
        name: "One".to_string(),
        team: vec![a],
        active_pokemon_index: 0,
        side_effects: Default::default(),
        last_action_submitted: None,
        must_switch: false,
    };
    let p2 = BattlePlayer {
        player_id: "p2".to_string(),
        name: "Two".to_string(),
        team: vec![b],
        active_pokemon_index: 0,
        side_effects: Default::default(),
        last_action_submitted: None,
        must_switch: false,
    };
    let mut state = PvPBattleState::new(7, p1, p2);
    battle_engine::pvp::check_pvp_battle_end(&mut state);
    assert!(matches!(state.battle_phase, BattlePvPPhase::Finished));
    let (o1, o2) = battle_engine::manager::determine_pvp_outcomes(&state);
    assert!(matches!(o1, PvPBattleOutcome::Draw));
    assert!(matches!(o2, PvPBattleOutcome::Draw));
}

// PvP experience: floor(base * 1.5 * level / 7), never below 50.
#[test]
fn pvp_exp_formula() {
    assert_eq!(calculate_pvp_exp_gain(60, 50), (60 * 3 * 50) / 14);
    assert_eq!(calculate_pvp_exp_gain(1, 1), 50);
}

// A converted record carries level, experience, HP and status in and the
// write-back carries them out unchanged when nothing happened.
#[test]
fn conversion_round_trip() {
    let template = battle_engine::monsters::MonsterTemplate {
        id: 1,
        name: "Sprig".to_string(),
        types: vec![PokemonType::Grass],
        abilities: vec!["overgrow".to_string()],
        base_experience: 60,
        min_level: 2,
        max_level: 20,
        base_stats: stats(45, 49, 49, 65, 65, 45),
        movement_pattern: None,
        moves: vec![(1, 1)],
        growth_rate: battle_engine::monsters::GrowthRate::Medium,
    };
    let record = battle_engine::manager::Pokemon {
        id: "abc".to_string(),
        template_id: 1,
        name: "Sprig".to_string(),
        level: 12,
        exp: 777,
        max_exp: 1000,
        current_hp: 20,
        ivs: StatSet::default(),
        evs: StatSet::default(),
        nature: Nature::Hardy,
        capture_date: 0,
        moves: vec![battle_engine::monsters::MonsterMove { id: 1, pp_remaining: 9 }],
        types: vec![PokemonType::Grass],
        ability: "overgrow".to_string(),
        status_condition: None,
    };
    let bp = battle_engine::manager::convert_player_pokemon_to_battle_pokemon(
        &record, 0, &template, None,
    );
    assert_eq!(bp.level, record.level);
    assert_eq!(bp.exp, record.exp);
    assert_eq!(bp.max_exp, record.max_exp);
    assert_eq!(bp.current_hp, record.current_hp);
    assert_eq!(bp.status, record.status_condition);
    let update = battle_engine::manager::battle_pokemon_to_update(&bp);
    assert_eq!(update.level, Some(record.level));
    assert_eq!(update.exp, Some(record.exp));
    assert_eq!(update.max_exp, Some(record.max_exp));
}

// Validation rejects bad actions without mutating state.
#[test]
fn validation_rejects_bad_actions() {
    let state = wild_state(
        mon("A", 50, stats(100, 100, 80, 60, 60, 70)),
        mon("W", 50, stats(90, 90, 80, 60, 60, 60)),
    );
    assert!(battle_engine::manager::validate_player_action(
        &state,
        &PlayerAction::UseMove { move_index: 5 }
    )
    .is_err());
    assert!(battle_engine::manager::validate_player_action(
        &state,
        &PlayerAction::SwitchPokemon { team_index: 0 }
    )
    .is_err());
    assert!(battle_engine::manager::validate_player_action(&state, &PlayerAction::Run).is_ok());
}

// The stat calculator: known formula values.
#[test]
fn stat_calculator_values() {
    let base = stats(45, 49, 49, 65, 65, 45);
    let ivs: StatSet<u8> = StatSet { hp: 31, attack: 31, defense: 31, special_attack: 31, special_defense: 31, speed: 31 };
    let evs: StatSet<u16> = StatSet::default();
    let s = battle_engine::stats::calculate_stats(&base, 50, &ivs, &evs, &Nature::Hardy);
    // HP = floor((2*45+31+0)*50/100)+50+10 = 60+60 = 120
    assert_eq!(s.hp, 120);
    // Attack = floor((2*49+31)*50/100)+5 = 69, neutral nature
    assert_eq!(s.attack, 69);
}

// A nature bends exactly its two stats by 11/10 and 9/10.
#[test]
fn nature_multipliers() {
    let base = stats(45, 49, 49, 65, 65, 45);
    let ivs: StatSet<u8> = StatSet::default();
    let evs: StatSet<u16> = StatSet::default();
    let neutral = battle_engine::stats::calculate_stats(&base, 50, &ivs, &evs, &Nature::Hardy);
    let adamant = battle_engine::stats::calculate_stats(&base, 50, &ivs, &evs, &Nature::Adamant);
    assert_eq!(adamant.attack, neutral.attack * 11 / 10);
    assert_eq!(adamant.special_attack, neutral.special_attack * 9 / 10);
    assert!(Nature::Hardy.is_neutral());
    assert!(!Nature::Adamant.is_neutral());
}

// The capture success rate converges near its stated probabilities.
#[test]
fn capture_statistics() {
    let mut zero_hp_successes = 0u32;
    let trials = 2000;
    for _ in 0..trials {
        let mut state = wild_state(
            mon("A", 50, stats(100, 100, 80, 60, 60, 70)),
            mon("W", 50, stats(90, 90, 80, 60, 60, 60)),
        );
        state.wild_pokemon.current_hp = 0;
        let mut events = Vec::new();
        battle_engine::wild::execute_capture_with_rng(
            &mut state,
            &mut events,
            "poke_ball".to_string(),
        );
        if state.capture_attempts.last().unwrap().success {
            zero_hp_successes += 1;
        }
    }
    let rate = zero_hp_successes as f64 / trials as f64;
    assert!(rate > 0.6 && rate < 0.8, "rate {rate}");
}
