//! Effect application: status conditions, stat-stage changes (always
//! clamped to [-6, 6]), and damage application with its event, for wild
//! battles. Every emitted event is stated exactly in the contracts.

use vstd::prelude::*;

use crate::damage::Effectiveness;
use crate::moves::{EffectData, EffectTarget, Stat, StatChangeParam};
use crate::state::{
    BattleEntityRef, BattleEvent, BattleMessage, BattlePlayer, BattlePokemon, StatusCondition,
    WildBattleState,
};
use crate::stats::{BattleStatModifiers, StatName, StatSet};

verus! {

/// `a - b`, floored at zero.
pub open spec fn spec_sat_sub(a: u32, b: u32) -> u32 {
    if b > a {
        0u32
    } else {
        (a - b) as u32
    }
}

/// Whether an entity reference addresses a slot this wild battle has.
pub open spec fn wild_entity_ok(state: WildBattleState, e: BattleEntityRef) -> bool {
    match e {
        BattleEntityRef::Player { team_index } => team_index < state.player.team@.len(),
        BattleEntityRef::Wild => true,
        _ => false,
    }
}

/// The Pokémon a valid entity reference addresses.
pub open spec fn spec_wild_pokemon_at(state: WildBattleState, e: BattleEntityRef) -> BattlePokemon {
    match e {
        BattleEntityRef::Player { team_index } => state.player.team@[team_index as int],
        _ => state.wild_pokemon,
    }
}

/// `post` is `pre` with exactly the addressed Pokémon replaced by `p`.
pub open spec fn wild_updated_at(
    pre: WildBattleState,
    post: WildBattleState,
    e: BattleEntityRef,
    p: BattlePokemon,
) -> bool {
    match e {
        BattleEntityRef::Player { team_index } => {
            &&& post.player.team@ == pre.player.team@.update(team_index as int, p)
            &&& post.player == (BattlePlayer { team: post.player.team, ..pre.player })
            &&& post == (WildBattleState { player: post.player, ..pre })
        },
        BattleEntityRef::Wild => post == (WildBattleState { wild_pokemon: p, ..pre }),
        _ => false,
    }
}

/// A stage pushed past a bound stays at the bound.
pub open spec fn spec_clamp_stage(v: int) -> i8 {
    if v < -6 {
        -6i8
    } else if v > 6 {
        6i8
    } else {
        v as i8
    }
}

/// The battle stat a move's stat-change entry touches; HP has no stage.
pub open spec fn spec_stat_for_change(s: Stat) -> Option<StatName> {
    match s {
        Stat::Hp => None,
        Stat::Attack => Some(StatName::Attack),
        Stat::Defense => Some(StatName::Defense),
        Stat::SpecialAttack => Some(StatName::SpecialAttack),
        Stat::SpecialDefense => Some(StatName::SpecialDefense),
        Stat::Speed => Some(StatName::Speed),
        Stat::Accuracy => Some(StatName::Accuracy),
        Stat::Evasion => Some(StatName::Evasion),
    }
}

/// The battle stat a move's stat-change entry touches; HP has no stage.
pub fn stat_for_change(s: Stat) -> (r: Option<StatName>)
    ensures
        r == spec_stat_for_change(s),
{
    match s {
        Stat::Hp => None,
        Stat::Attack => Some(StatName::Attack),
        Stat::Defense => Some(StatName::Defense),
        Stat::SpecialAttack => Some(StatName::SpecialAttack),
        Stat::SpecialDefense => Some(StatName::SpecialDefense),
        Stat::Speed => Some(StatName::Speed),
        Stat::Accuracy => Some(StatName::Accuracy),
        Stat::Evasion => Some(StatName::Evasion),
    }
}

/// `m` with the stage of one stat replaced.
pub open spec fn spec_with_stage(m: BattleStatModifiers, stat: StatName, v: i8) -> BattleStatModifiers {
    match stat {
        StatName::Attack => BattleStatModifiers {
            battle_stats: StatSet { attack: v, ..m.battle_stats },
            ..m
        },
        StatName::Defense => BattleStatModifiers {
            battle_stats: StatSet { defense: v, ..m.battle_stats },
            ..m
        },
        StatName::SpecialAttack => BattleStatModifiers {
            battle_stats: StatSet { special_attack: v, ..m.battle_stats },
            ..m
        },
        StatName::SpecialDefense => BattleStatModifiers {
            battle_stats: StatSet { special_defense: v, ..m.battle_stats },
            ..m
        },
        StatName::Speed => BattleStatModifiers {
            battle_stats: StatSet { speed: v, ..m.battle_stats },
            ..m
        },
        StatName::Accuracy => BattleStatModifiers { accuracy: v, ..m },
        StatName::Evasion => BattleStatModifiers { evasion: v, ..m },
    }
}

/// One stat-change entry applied to a set of modifiers: the new stage is
/// the old one plus the requested stages, clamped to [-6, 6].
pub open spec fn spec_apply_one_change(
    m: BattleStatModifiers,
    c: StatChangeParam,
) -> BattleStatModifiers {
    match spec_stat_for_change(c.stat) {
        None => m,
        Some(sn) => spec_with_stage(m, sn, spec_clamp_stage(m.spec_stage(sn) + c.stages)),
    }
}

/// A whole list of stat-change entries applied left to right.
pub open spec fn spec_apply_stat_changes(
    m: BattleStatModifiers,
    changes: Seq<StatChangeParam>,
) -> BattleStatModifiers
    decreases changes.len(),
{
    if changes.len() == 0 {
        m
    } else {
        spec_apply_stat_changes(spec_apply_one_change(m, changes[0]), changes.skip(1))
    }
}

/// The events one stat-change entry emits: nothing for HP; at a bound only
/// the narration that the stat will not move, and no StatChange event;
/// otherwise the narration and the StatChange event.
pub open spec fn spec_one_change_events(
    m: BattleStatModifiers,
    c: StatChangeParam,
    target_ref: BattleEntityRef,
    name: String,
) -> Seq<BattleEvent> {
    match spec_stat_for_change(c.stat) {
        None => Seq::empty(),
        Some(sn) => {
            let ns = spec_clamp_stage(m.spec_stage(sn) + c.stages);
            if ns == m.spec_stage(sn) {
                seq![
                    BattleEvent::GenericMessage {
                        message: BattleMessage::StatAtLimit { target: name, raising: c.stages > 0 },
                    },
                ]
            } else {
                seq![
                    BattleEvent::GenericMessage {
                        message: BattleMessage::StatRose { target: name, stat: sn, stages: c.stages },
                    },
                    BattleEvent::StatChange {
                        target: target_ref,
                        stat: sn,
                        stages: c.stages,
                        new_stage: ns,
                        success: true,
                    },
                ]
            }
        },
    }
}

/// The events a whole list of stat-change entries emits, in order.
pub open spec fn spec_stat_changes_events(
    m: BattleStatModifiers,
    changes: Seq<StatChangeParam>,
    target_ref: BattleEntityRef,
    name: String,
) -> Seq<BattleEvent>
    decreases changes.len(),
{
    if changes.len() == 0 {
        Seq::empty()
    } else {
        spec_one_change_events(m, changes[0], target_ref, name) + spec_stat_changes_events(
            spec_apply_one_change(m, changes[0]),
            changes.skip(1),
            target_ref,
            name,
        )
    }
}

/// Stat-stage application is always clamped to [-6, 6], and a push past a
/// bound changes nothing and emits no StatChange event, only the narration
/// that the stat will not move.
pub proof fn lemma_stat_stage_clamped(
    m: BattleStatModifiers,
    c: StatChangeParam,
    target_ref: BattleEntityRef,
    name: String,
)
    requires
        m.wf(),
    ensures
        spec_apply_one_change(m, c).wf(),
        match spec_stat_for_change(c.stat) {
            Some(sn) => {
                &&& -6 <= spec_apply_one_change(m, c).spec_stage(sn) <= 6
                &&& (((m.spec_stage(sn) == 6 && c.stages >= 0) || (m.spec_stage(sn) == -6
                    && c.stages <= 0)) ==> (spec_apply_one_change(m, c) == m
                    && spec_one_change_events(m, c, target_ref, name) =~= seq![
                    BattleEvent::GenericMessage {
                        message: BattleMessage::StatAtLimit { target: name, raising: c.stages > 0 },
                    },
                ]))
            },
            None => spec_apply_one_change(m, c) == m && spec_one_change_events(
                m,
                c,
                target_ref,
                name,
            ).len() == 0,
        },
{
    match spec_stat_for_change(c.stat) {
        Some(sn) => {
            let ns = spec_clamp_stage(m.spec_stage(sn) + c.stages);
            if ns == m.spec_stage(sn) {
                assert(spec_with_stage(m, sn, ns) == m);
            }
        },
        None => {},
    }
}

/// Applies one stage change to a Pokémon: the new stage is the old plus
/// the requested stages, clamped to [-6, 6]. Returns the new stage and
/// whether the application was a no-op at a bound.
pub fn apply_stat_change(pokemon: &mut BattlePokemon, stat: StatName, stages: i8) -> (r: (i8, bool))
    ensures
        ({
            let old_stage = old(pokemon).stat_modifiers.spec_stage(stat);
            let ns = spec_clamp_stage(old_stage + stages);
            &&& r.0 == ns
            &&& r.1 == (ns == old_stage)
            &&& -6 <= ns <= 6
            &&& *final(pokemon) == (BattlePokemon {
                stat_modifiers: spec_with_stage(old(pokemon).stat_modifiers, stat, ns),
                ..*old(pokemon)
            })
        }),
{
    let current: i8 = pokemon.stat_modifiers.stage(stat);
    let wide: i32 = current as i32 + stages as i32;
    let ns: i8 = if wide < -6 {
        -6
    } else if wide > 6 {
        6
    } else {
        wide as i8
    };
    match stat {
        StatName::Attack => pokemon.stat_modifiers.battle_stats.attack = ns,
        StatName::Defense => pokemon.stat_modifiers.battle_stats.defense = ns,
        StatName::SpecialAttack => pokemon.stat_modifiers.battle_stats.special_attack = ns,
        StatName::SpecialDefense => pokemon.stat_modifiers.battle_stats.special_defense = ns,
        StatName::Speed => pokemon.stat_modifiers.battle_stats.speed = ns,
        StatName::Accuracy => pokemon.stat_modifiers.accuracy = ns,
        StatName::Evasion => pokemon.stat_modifiers.evasion = ns,
    }
    (ns, ns == current)
}

/// Apply damage with effectiveness and critical-hit information: subtracts
/// the damage floored at zero (HP never underflows) and emits exactly one
/// DamageDealt event with the resulting HP.
pub fn apply_damage_with_effectiveness(
    battle_state: &mut WildBattleState,
    battle_events: &mut Vec<BattleEvent>,
    target: BattleEntityRef,
    damage: u32,
    effectiveness: Effectiveness,
    is_critical: bool,
)
    requires
        old(battle_state).wf(),
        wild_entity_ok(*old(battle_state), target),
    ensures
        final(battle_state).wf(),
        ({
            let oldp = spec_wild_pokemon_at(*old(battle_state), target);
            let newp = BattlePokemon { current_hp: spec_sat_sub(oldp.current_hp, damage), ..oldp };
            &&& wild_updated_at(*old(battle_state), *final(battle_state), target, newp)
            &&& final(battle_events)@ == old(battle_events)@ + seq![
                BattleEvent::DamageDealt {
                    target,
                    damage,
                    new_hp: newp.current_hp,
                    max_hp: oldp.max_hp,
                    effectiveness,
                    is_critical,
                },
            ]
        }),
{
    match target {
        BattleEntityRef::Player { team_index } => {
            let old_hp = battle_state.player.team[team_index].current_hp;
            let new_hp = if damage > old_hp {
                0
            } else {
                old_hp - damage
            };
            battle_state.player.team[team_index].current_hp = new_hp;
            let max_hp = battle_state.player.team[team_index].max_hp;
            battle_events.push(
                BattleEvent::DamageDealt {
                    target,
                    damage,
                    new_hp,
                    max_hp,
                    effectiveness,
                    is_critical,
                },
            );
        },
        BattleEntityRef::Wild => {
            let old_hp = battle_state.wild_pokemon.current_hp;
            let new_hp = if damage > old_hp {
                0
            } else {
                old_hp - damage
            };
            battle_state.wild_pokemon.current_hp = new_hp;
            let max_hp = battle_state.wild_pokemon.max_hp;
            battle_events.push(
                BattleEvent::DamageDealt {
                    target,
                    damage,
                    new_hp,
                    max_hp,
                    effectiveness,
                    is_critical,
                },
            );
        },
        _ => {
            proof {
                assert(false);
            }
        },
    }
}

/// Apply damage without effectiveness information (end-of-turn effects and
/// the unknown-move fallback): neutral effectiveness, never critical. A
/// reference to a PvP slot does nothing.
pub fn apply_damage(
    battle_state: &mut WildBattleState,
    battle_events: &mut Vec<BattleEvent>,
    target: BattleEntityRef,
    damage: u32,
)
    requires
        old(battle_state).wf(),
        match target {
            BattleEntityRef::Player { team_index } => team_index < old(battle_state).player.team@.len(),
            _ => true,
        },
    ensures
        final(battle_state).wf(),
        match target {
            BattleEntityRef::Player { .. } | BattleEntityRef::Wild => ({
                let oldp = spec_wild_pokemon_at(*old(battle_state), target);
                let newp = BattlePokemon {
                    current_hp: spec_sat_sub(oldp.current_hp, damage),
                    ..oldp
                };
                &&& wild_updated_at(*old(battle_state), *final(battle_state), target, newp)
                &&& final(battle_events)@ == old(battle_events)@ + seq![
                    BattleEvent::DamageDealt {
                        target,
                        damage,
                        new_hp: newp.current_hp,
                        max_hp: oldp.max_hp,
                        effectiveness: Effectiveness { num: 1u64, den: 1u64 },
                        is_critical: false,
                    },
                ]
            }),
            _ => *final(battle_state) == *old(battle_state) && final(battle_events)@ == old(battle_events)@,
        },
{
    match target {
        BattleEntityRef::Player { .. } | BattleEntityRef::Wild => {
            apply_damage_with_effectiveness(
                battle_state,
                battle_events,
                target,
                damage,
                Effectiveness { num: 1, den: 1 },
                false,
            );
        },
        _ => {},
    }
}

/// Resolves an effect's declared target indirection.
pub fn resolve_effect_target(
    effect_target: EffectTarget,
    source: BattleEntityRef,
    target: BattleEntityRef,
) -> (r: BattleEntityRef)
    ensures
        r == spec_resolve_effect_target(effect_target, source, target),
{
    match effect_target {
        EffectTarget::User => source,
        EffectTarget::Target => target,
    }
}

/// The entity an effect lands on: the move's user or its target.
pub open spec fn spec_resolve_effect_target(
    effect_target: EffectTarget,
    source: BattleEntityRef,
    target: BattleEntityRef,
) -> BattleEntityRef {
    match effect_target {
        EffectTarget::User => source,
        EffectTarget::Target => target,
    }
}

/// The events an ApplyStatus effect emits: narration and a StatusApplied
/// event when the target carries no status yet; otherwise only the
/// narration that it failed.
pub open spec fn spec_apply_status_events(
    p: BattlePokemon,
    status: StatusCondition,
    actual_target: BattleEntityRef,
) -> Seq<BattleEvent> {
    if p.status is None {
        seq![
            BattleEvent::GenericMessage {
                message: BattleMessage::StatusInflicted { target: p.name, status },
            },
            BattleEvent::StatusApplied { target: actual_target, status },
        ]
    } else {
        seq![
            BattleEvent::GenericMessage {
                message: BattleMessage::StatusAlreadyPresent { target: p.name },
            },
        ]
    }
}

/// Applies a move effect to the resolved target, emitting the events the
/// contract lists: ApplyStatus fails (message only) on a target that
/// already carries a status; StatChange clamps each stage to [-6, 6] and
/// emits no StatChange event for a no-op at a bound; Heal and all other
/// effect kinds only narrate that they are not implemented.
pub fn apply_effect(
    battle_state: &mut WildBattleState,
    battle_events: &mut Vec<BattleEvent>,
    effect: &EffectData,
    source: BattleEntityRef,
    target: BattleEntityRef,
)
    requires
        old(battle_state).wf(),
        wild_entity_ok(*old(battle_state), source),
        wild_entity_ok(*old(battle_state), target),
    ensures
        final(battle_state).wf(),
        match *effect {
            EffectData::ApplyStatus { status, target: et } => ({
                let ar = spec_resolve_effect_target(et, source, target);
                let oldp = spec_wild_pokemon_at(*old(battle_state), ar);
                &&& final(battle_events)@ == old(battle_events)@ + spec_apply_status_events(
                    oldp,
                    status,
                    ar,
                )
                &&& if oldp.status is None {
                    wild_updated_at(
                        *old(battle_state),
                        *final(battle_state),
                        ar,
                        BattlePokemon { status: Some(status), ..oldp },
                    )
                } else {
                    *final(battle_state) == *old(battle_state)
                }
            }),
            EffectData::StatChange { changes, target: et } => ({
                let ar = spec_resolve_effect_target(et, source, target);
                let oldp = spec_wild_pokemon_at(*old(battle_state), ar);
                let newm = spec_apply_stat_changes(oldp.stat_modifiers, changes@);
                &&& final(battle_events)@ == old(battle_events)@ + spec_stat_changes_events(
                    oldp.stat_modifiers,
                    changes@,
                    ar,
                    oldp.name,
                )
                &&& wild_updated_at(
                    *old(battle_state),
                    *final(battle_state),
                    ar,
                    BattlePokemon { stat_modifiers: newm, ..oldp },
                )
            }),
            EffectData::Heal { .. } => *final(battle_state) == *old(battle_state)
                && final(battle_events)@ == old(battle_events)@ + seq![
                BattleEvent::GenericMessage { message: BattleMessage::HealingNotImplemented },
            ],
            _ => *final(battle_state) == *old(battle_state)
                && final(battle_events)@ == old(battle_events)@ + seq![
                BattleEvent::GenericMessage { message: BattleMessage::EffectNotImplemented },
            ],
        },
{
    match effect {
        EffectData::ApplyStatus { status, target: effect_target } => {
            let actual_target = resolve_effect_target(*effect_target, source, target);
            match actual_target {
                BattleEntityRef::Player { team_index } => {
                    let had_status = battle_state.player.team[team_index].status.is_some();
                    let name = battle_state.player.team[team_index].name.clone();
                    if !had_status {
                        battle_state.player.team[team_index].status = Some(*status);
                        battle_events.push(
                            BattleEvent::GenericMessage {
                                message: BattleMessage::StatusInflicted {
                                    target: name,
                                    status: *status,
                                },
                            },
                        );
                        battle_events.push(
                            BattleEvent::StatusApplied {
                                target: actual_target,
                                status: *status,
                            },
                        );
                    } else {
                        battle_events.push(
                            BattleEvent::GenericMessage {
                                message: BattleMessage::StatusAlreadyPresent { target: name },
                            },
                        );
                    }
                },
                BattleEntityRef::Wild => {
                    let had_status = battle_state.wild_pokemon.status.is_some();
                    let name = battle_state.wild_pokemon.name.clone();
                    if !had_status {
                        battle_state.wild_pokemon.status = Some(*status);
                        battle_events.push(
                            BattleEvent::GenericMessage {
                                message: BattleMessage::StatusInflicted {
                                    target: name,
                                    status: *status,
                                },
                            },
                        );
                        battle_events.push(
                            BattleEvent::StatusApplied {
                                target: actual_target,
                                status: *status,
                            },
                        );
                    } else {
                        battle_events.push(
                            BattleEvent::GenericMessage {
                                message: BattleMessage::StatusAlreadyPresent { target: name },
                            },
                        );
                    }
                },
                _ => {
                    proof {
                        assert(false);
                    }
                },
            }
        },
        EffectData::StatChange { changes, target: effect_target } => {
            let actual_target = resolve_effect_target(*effect_target, source, target);
            apply_stat_changes_to_entity(battle_state, battle_events, changes, actual_target);
        },
        EffectData::Heal { .. } => {
            battle_events.push(
                BattleEvent::GenericMessage { message: BattleMessage::HealingNotImplemented },
            );
        },
        _ => {
            battle_events.push(
                BattleEvent::GenericMessage { message: BattleMessage::EffectNotImplemented },
            );
        },
    }
}

/// Applies a list of stat-change entries to the addressed Pokémon, left to
/// right, emitting per entry the events `spec_stat_changes_events` lists.
fn apply_stat_changes_to_entity(
    battle_state: &mut WildBattleState,
    battle_events: &mut Vec<BattleEvent>,
    changes: &Vec<StatChangeParam>,
    actual_target: BattleEntityRef,
)
    requires
        old(battle_state).wf(),
        wild_entity_ok(*old(battle_state), actual_target),
    ensures
        final(battle_state).wf(),
        ({
            let oldp = spec_wild_pokemon_at(*old(battle_state), actual_target);
            let newm = spec_apply_stat_changes(oldp.stat_modifiers, changes@);
            &&& final(battle_events)@ == old(battle_events)@ + spec_stat_changes_events(
                oldp.stat_modifiers,
                changes@,
                actual_target,
                oldp.name,
            )
            &&& wild_updated_at(
                *old(battle_state),
                *final(battle_state),
                actual_target,
                BattlePokemon { stat_modifiers: newm, ..oldp },
            )
        }),
{
    let ghost pre_state = *battle_state;
    let ghost pre_events = battle_events@;
    let ghost oldp = spec_wild_pokemon_at(*battle_state, actual_target);
    let name = match actual_target {
        BattleEntityRef::Player { team_index } => battle_state.player.team[team_index].name.clone(),
        _ => battle_state.wild_pokemon.name.clone(),
    };
    let mut i: usize = 0;
    proof {
        assert(changes@.skip(0) =~= changes@);
        if let BattleEntityRef::Player { team_index } = actual_target {
            assert(pre_state.player.team@.update(team_index as int, oldp) =~= pre_state.player.team@);
        }
        assert(battle_events@.skip(pre_events.len() as int) =~= Seq::<BattleEvent>::empty());
    }
    while i < changes.len()
        invariant
            i <= changes@.len(),
            battle_state.wf(),
            wild_entity_ok(*battle_state, actual_target),
            wild_entity_ok(pre_state, actual_target),
            name == oldp.name,
            oldp == spec_wild_pokemon_at(pre_state, actual_target),
            // only the addressed Pokémon's modifiers have moved so far
            wild_updated_at(
                pre_state,
                *battle_state,
                actual_target,
                BattlePokemon {
                    stat_modifiers: spec_wild_pokemon_at(*battle_state, actual_target).stat_modifiers,
                    ..oldp
                },
            ),
            spec_wild_pokemon_at(*battle_state, actual_target) == (BattlePokemon {
                stat_modifiers: spec_wild_pokemon_at(*battle_state, actual_target).stat_modifiers,
                ..oldp
            }),
            // the fold over what remains lands at the same final modifiers
            spec_apply_stat_changes(oldp.stat_modifiers, changes@) == spec_apply_stat_changes(
                spec_wild_pokemon_at(*battle_state, actual_target).stat_modifiers,
                changes@.skip(i as int),
            ),
            // the events so far plus those of the remainder make the whole
            battle_events@ == pre_events + spec_stat_changes_events(
                oldp.stat_modifiers,
                changes@,
                actual_target,
                name,
            ).take(
                battle_events@.len() - pre_events.len(),
            ),
            spec_stat_changes_events(oldp.stat_modifiers, changes@, actual_target, name)
                == battle_events@.skip(pre_events.len() as int) + spec_stat_changes_events(
                spec_wild_pokemon_at(*battle_state, actual_target).stat_modifiers,
                changes@.skip(i as int),
                actual_target,
                name,
            ),
        decreases changes@.len() - i,
    {
        let ghost state_at_iter_start = *battle_state;
        let ghost m_before = spec_wild_pokemon_at(*battle_state, actual_target).stat_modifiers;
        let ghost events_at_iter_start = battle_events@;
        let change = changes[i];
        proof {
            assert(changes@.skip(i as int)[0] == changes@[i as int]);
            assert(changes@.skip(i as int).skip(1) =~= changes@.skip(i as int + 1));
        }
        match stat_for_change(change.stat) {
            None => {},
            Some(stat_name) => {
                let (new_stage, at_limit) = match actual_target {
                    BattleEntityRef::Player { team_index } => apply_stat_change(
                        &mut battle_state.player.team[team_index],
                        stat_name,
                        change.stages,
                    ),
                    _ => apply_stat_change(&mut battle_state.wild_pokemon, stat_name, change.stages),
                };
                if !at_limit {
                    battle_events.push(
                        BattleEvent::GenericMessage {
                            message: BattleMessage::StatRose {
                                target: name.clone(),
                                stat: stat_name,
                                stages: change.stages,
                            },
                        },
                    );
                    battle_events.push(
                        BattleEvent::StatChange {
                            target: actual_target,
                            stat: stat_name,
                            stages: change.stages,
                            new_stage,
                            success: true,
                        },
                    );
                } else {
                    battle_events.push(
                        BattleEvent::GenericMessage {
                            message: BattleMessage::StatAtLimit {
                                target: name.clone(),
                                raising: change.stages > 0,
                            },
                        },
                    );
                }
            },
        }
        proof {
            if let BattleEntityRef::Player { team_index } = actual_target {
                let ti = team_index as int;
                assert(ti < pre_state.player.team@.len());
                assert(state_at_iter_start.player.team@ == pre_state.player.team@.update(
                    ti,
                    BattlePokemon { stat_modifiers: m_before, ..oldp },
                ));
                let cur = battle_state.player.team@[ti];
                assert(battle_state.player.team@ == state_at_iter_start.player.team@
                    || battle_state.player.team@ == state_at_iter_start.player.team@.update(ti, cur));
                assert(battle_state.player.team@ =~= pre_state.player.team@.update(ti, cur));
            }
            let one = spec_one_change_events(m_before, changes@[i as int], actual_target, name);
            assert(battle_events@ =~= events_at_iter_start + one);
            let all_events = spec_stat_changes_events(
                oldp.stat_modifiers,
                changes@,
                actual_target,
                name,
            );
            assert(battle_events@.skip(pre_events.len() as int) =~= events_at_iter_start.skip(
                pre_events.len() as int,
            ) + one);
            let done = battle_events@.len() - pre_events.len();
            assert(battle_events@ == pre_events + all_events.take(done as int)) by {
                assert(battle_events@.skip(pre_events.len() as int) =~= all_events.take(
                    done as int,
                ));
                assert(battle_events@ =~= pre_events + battle_events@.skip(
                    pre_events.len() as int,
                ));
            };
        }
        i = i + 1;
    }
    proof {
        assert(changes@.skip(i as int).len() == 0);
        let all_events = spec_stat_changes_events(oldp.stat_modifiers, changes@, actual_target, name);
        assert(battle_events@ =~= pre_events + all_events);
    }
}

} // verus!
