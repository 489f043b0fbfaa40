//! Battle state: the per-battle mutable data for wild and PvP encounters,
//! the append-only event log the client renders from, and the public and
//! private views handed to the transport layer.

use vstd::prelude::*;

use crate::damage::Effectiveness;
use crate::moves::{MoveRepository, PokemonType};
use crate::stats::{BattleStatModifiers, CalculatedStats, StatName, StatSet};
use crate::stats::Nature;

verus! {

/// The non-volatile status conditions; a Pokémon carries at most one.
#[derive(Debug, Clone, Copy, PartialEq, Eq, Hash, Structural)]
pub enum StatusCondition {
    Burn,
    Freeze,
    Paralysis,
    Poison,
    Sleep,
    Toxic,
}

/// Who acts first in a wild battle turn.
#[derive(Debug, Clone, Copy, PartialEq, Eq, Hash, Structural)]
pub enum TurnOrder {
    PlayerFirst,
    WildFirst,
}

/// Who acts first in a PvP turn.
#[derive(Debug, Clone, Copy, PartialEq, Eq, Hash, Structural)]
pub enum PvPTurnOrder {
    Player1First,
    Player2First,
    Player1FirstThenPlayer2,
    Player2FirstThenPlayer1,
    Simultaneous,
}

/// Phases specific to PvP battles.
#[derive(Debug, Clone, Copy, PartialEq, Eq, Hash, Structural)]
pub enum BattlePvPPhase {
    WaitingForBothPlayersActions,
    WaitingForPlayer1Action,
    WaitingForPlayer2Action,
    ProcessingTurn,
    WaitingForPlayer1Switch,
    WaitingForPlayer2Switch,
    Finished,
}

/// Reason the PvP battle ended.
#[derive(Debug, Clone, Copy, PartialEq, Eq, Hash, Structural)]
pub enum PvPBattleEndReason {
    Player1Victory,
    Player2Victory,
    Player1Surrendered,
    Player2Surrendered,
    Player1Disconnected,
    Player2Disconnected,
    TimeLimitReached,
    ServerError,
}

/// Outcome of a PvP battle from one player's point of view.
#[derive(Debug, Clone, Copy, PartialEq, Eq, Structural)]
pub enum PvPBattleOutcome {
    Victory,
    Defeat,
    Surrender,
    OpponentSurrendered,
    Disconnected,
    OpponentDisconnected,
    Draw,
}

/// Current phase of a wild battle.
#[derive(Debug, Clone, Copy, PartialEq, Eq, Hash, Structural)]
pub enum BattlePhase {
    WaitingForPlayerAction,
    ProcessingTurn,
    WaitingForSwitch,
    CaptureMechanics,
    Finished,
}

/// Action that a player can take during their turn.
#[derive(Debug, PartialEq, Eq, Hash)]
pub enum PlayerAction {
    UseMove { move_index: usize },
    SwitchPokemon { team_index: usize },
    UseItem { item_id: String, is_capture_item: bool },
    Run,
}

impl Clone for PlayerAction {
    /// A clone is equal to the original.
    fn clone(&self) -> (r: PlayerAction)
        ensures
            r == *self,
    {
        match self {
            PlayerAction::UseMove { move_index } => PlayerAction::UseMove {
                move_index: *move_index,
            },
            PlayerAction::SwitchPokemon { team_index } => PlayerAction::SwitchPokemon {
                team_index: *team_index,
            },
            PlayerAction::UseItem { item_id, is_capture_item } => PlayerAction::UseItem {
                item_id: item_id.clone(),
                is_capture_item: *is_capture_item,
            },
            PlayerAction::Run => PlayerAction::Run,
        }
    }
}

/// Types of Poké Balls.
#[derive(Debug, Clone, Copy, PartialEq, Eq, Hash, Structural)]
pub enum BallType {
    PokeBall,
    GreatBall,
    UltraBall,
}

/// Tracks a capture attempt with a Poké Ball.
#[derive(Debug, Clone, Copy, PartialEq, Eq, Structural)]
pub struct CaptureAttempt {
    pub ball_type: BallType,
    pub shake_count: u8,
    pub success: bool,
    pub turn_number: u32,
}

/// Action that a wild Pokémon can take.
#[derive(Debug, Clone, Copy, PartialEq, Eq, Structural)]
pub enum WildPokemonAction {
    UseMove { move_index: usize },
    Struggle,
    Flee,
}

/// Reason for requesting a switch.
#[derive(Debug, Clone, Copy, PartialEq, Eq, Hash, Structural)]
pub enum SwitchReason {
    Fainted,
    Forced,
}

/// Reason a wild battle ended.
#[derive(Debug, Clone, Copy, PartialEq, Eq, Hash, Structural)]
pub enum BattleEndReason {
    WildPokemonDefeated,
    WildPokemonCaptured,
    WildPokemonFled,
    PlayerRanAway,
    AllPlayerPokemonFainted,
    PlayerDisconnected,
}

/// Outcome of a wild battle.
#[derive(Debug, Clone, Copy, PartialEq, Eq, Structural)]
pub enum WildBattleOutcome {
    Victory,
    Captured,
    Fled,
    PlayerRan,
    Defeat,
    PlayerDisconnected,
}

/// Closed tagged reference to a participant slot; pure addressing, no
/// ownership.
#[derive(Debug, Clone, Copy, PartialEq, Eq, Structural)]
pub enum BattleEntityRef {
    Player { team_index: usize },
    Wild,
    Player1 { team_index: usize },
    Player2 { team_index: usize },
}

/// Types of field effects.
#[derive(Debug, Clone, Copy, PartialEq, Eq, Hash, Structural)]
pub enum FieldEffectType {
    Reflect,
    LightScreen,
    Tailwind,
    StealthRock,
    Spikes,
    ToxicSpikes,
    StickyWeb,
    TrickRoom,
}

/// Target side for field effects.
#[derive(Debug, Clone, Copy, PartialEq, Eq, Hash, Structural)]
pub enum EffectTargetSide {
    Player,
    Opponent,
    Both,
}

/// Temporary statuses that can sit on a battling Pokémon.
#[derive(Debug, Clone, Copy, PartialEq, Eq, Hash, Structural)]
pub enum VolatileStatusType {
    Confusion,
    Flinch,
    Taunt,
    LeechSeed,
    Substitute,
    Bound,
}

/// Data associated with a volatile status.
#[derive(Debug, Clone, Copy, PartialEq, Eq, Structural)]
pub struct VolatileStatusData {
    pub turns_left: Option<u8>,
}

/// Categorizes moves as physical, special, or status.
#[derive(Debug, Clone, Copy, PartialEq, Eq, Hash, Structural)]
pub enum MoveCategory {
    Physical,
    Special,
    Status,
}

/// Side effects specific to one player's side of the field.
#[derive(Debug, Clone, Copy, PartialEq, Eq, Structural)]
pub struct PlayerSideState {
    pub reflect_turns: u8,
    pub light_screen_turns: u8,
    pub tailwind_turns: u8,
    pub stealth_rock: bool,
    pub spikes_layers: u8,
    pub toxic_spikes_layers: u8,
    pub sticky_web: bool,
}

impl Default for PlayerSideState {
    /// A side with no effects laid down.
    fn default() -> (s: PlayerSideState)
        ensures
            s == (PlayerSideState {
                reflect_turns: 0u8,
                light_screen_turns: 0u8,
                tailwind_turns: 0u8,
                stealth_rock: false,
                spikes_layers: 0u8,
                toxic_spikes_layers: 0u8,
                sticky_web: false,
            }),
    {
        PlayerSideState {
            reflect_turns: 0,
            light_screen_turns: 0,
            tailwind_turns: 0,
            stealth_rock: false,
            spikes_layers: 0,
            toxic_spikes_layers: 0,
            sticky_web: false,
        }
    }
}

/// Types of weather.
#[derive(Debug, Clone, Copy, PartialEq, Eq, Hash, Structural)]
pub enum WeatherType {
    Rain,
    HarshSunlight,
    Sandstorm,
    Hail,
}

/// Weather state with type and duration.
#[derive(Debug, Clone, Copy, PartialEq, Eq, Structural)]
pub struct WeatherState {
    pub weather_type: WeatherType,
    pub turns_left: u8,
}

/// Global field state affecting both sides.
#[derive(Debug, Clone, Copy, PartialEq, Eq, Structural)]
pub struct FieldState {
    pub weather: Option<WeatherState>,
    pub trick_room_turns: u8,
}

impl Default for FieldState {
    /// A field with no weather and no room effect.
    fn default() -> (s: FieldState)
        ensures
            s == (FieldState { weather: None::<WeatherState>, trick_room_turns: 0u8 }),
    {
        FieldState { weather: None, trick_room_turns: 0 }
    }
}

/// A move in battle with PP tracking.
#[derive(Debug, Clone, Copy, PartialEq, Eq, Structural)]
pub struct BattleMove {
    pub move_id: u32,
    pub current_pp: u8,
    pub max_pp: u8,
}

/// A Pokémon in battle with all its dynamic state.
#[derive(Debug, Clone)]
pub struct BattlePokemon {
    pub template_id: u32,
    pub name: String,
    pub level: u32,
    pub pokemon_types: Vec<PokemonType>,
    pub ability: String,
    pub moves: Vec<BattleMove>,
    pub instance_id: String,
    pub base_exp: u32,
    pub exp: u64,
    pub max_exp: u64,
    pub calculated_stats: CalculatedStats,
    pub ivs: StatSet<u8>,
    pub evs: StatSet<u16>,
    pub nature: Nature,
    pub current_hp: u32,
    pub max_hp: u32,
    pub status: Option<StatusCondition>,
    pub status_turns: u8,
    pub volatile_statuses: Vec<(VolatileStatusType, VolatileStatusData)>,
    pub stat_modifiers: BattleStatModifiers,
    pub is_fainted: bool,
    pub position: usize,
    pub is_wild: bool,
}

impl BattlePokemon {
    /// The battle invariants of one Pokémon: level in range, HP within its
    /// maximum, the maximum tied to the calculated stats, positive stats,
    /// at most four types, and all stages in [-6, 6].
    pub open spec fn wf(&self) -> bool {
        &&& 1 <= self.level <= 100
        &&& self.current_hp <= self.max_hp
        &&& self.max_hp == self.calculated_stats.hp
        &&& self.max_hp >= 1
        &&& self.calculated_stats.attack >= 1
        &&& self.calculated_stats.defense >= 1
        &&& self.calculated_stats.special_attack >= 1
        &&& self.calculated_stats.special_defense >= 1
        &&& self.calculated_stats.speed >= 1
        &&& self.pokemon_types@.len() <= 4
        &&& self.stat_modifiers.wf()
    }
}

/// The player side of a battle.
#[derive(Debug, Clone)]
pub struct BattlePlayer {
    pub player_id: String,
    pub name: String,
    pub team: Vec<BattlePokemon>,
    pub active_pokemon_index: usize,
    pub side_effects: PlayerSideState,
    pub last_action_submitted: Option<PlayerAction>,
    pub must_switch: bool,
}

impl BattlePlayer {
    /// Non-empty team, active index in range, every member well-formed.
    pub open spec fn wf(&self) -> bool {
        &&& self.team@.len() >= 1
        &&& self.active_pokemon_index < self.team@.len()
        &&& forall|i: int| 0 <= i < self.team@.len() ==> (#[trigger] self.team@[i]).wf()
    }

    /// The currently active team member.
    pub open spec fn spec_active(&self) -> BattlePokemon {
        self.team@[self.active_pokemon_index as int]
    }

    /// Some team member is neither fainted nor at zero HP.
    pub open spec fn spec_has_healthy(&self) -> bool {
        exists|i: int|
            0 <= i < self.team@.len() && !(#[trigger] self.team@[i]).is_fainted
                && self.team@[i].current_hp > 0
    }

    /// Every team member has fainted.
    pub open spec fn spec_all_fainted(&self) -> bool {
        forall|i: int| 0 <= i < self.team@.len() ==> (#[trigger] self.team@[i]).is_fainted
    }

    /// Whether some bench or active member could still fight.
    pub fn has_healthy_member(&self) -> (r: bool)
        ensures
            r == self.spec_has_healthy(),
    {
        let mut i: usize = 0;
        while i < self.team.len()
            invariant
                i <= self.team@.len(),
                forall|j: int|
                    0 <= j < i ==> !(!(#[trigger] self.team@[j]).is_fainted
                        && self.team@[j].current_hp > 0),
            decreases self.team@.len() - i,
        {
            if !self.team[i].is_fainted && self.team[i].current_hp > 0 {
                return true;
            }
            i = i + 1;
        }
        false
    }

    /// Whether the whole team has fainted.
    pub fn all_fainted(&self) -> (r: bool)
        ensures
            r == self.spec_all_fainted(),
    {
        let mut i: usize = 0;
        while i < self.team.len()
            invariant
                i <= self.team@.len(),
                forall|j: int| 0 <= j < i ==> (#[trigger] self.team@[j]).is_fainted,
            decreases self.team@.len() - i,
        {
            if !self.team[i].is_fainted {
                return false;
            }
            i = i + 1;
        }
        true
    }

    /// How many team members have not fainted.
    pub fn count_not_fainted(&self) -> (n: usize)
        ensures
            n <= self.team@.len(),
    {
        let mut n: usize = 0;
        let mut i: usize = 0;
        while i < self.team.len()
            invariant
                i <= self.team@.len(),
                n <= i,
            decreases self.team@.len() - i,
        {
            if !self.team[i].is_fainted {
                n = n + 1;
            }
            i = i + 1;
        }
        n
    }
}

/// A structured narrative line of the battle log; the transport layer
/// renders it to text.
#[derive(Debug, Clone)]
pub enum BattleMessage {
    TurnOrderAnnounced { turn_number: u32, order: TurnOrder },
    PvPTurnOrderAnnounced { turn_number: u32, order: PvPTurnOrder },
    MoveAnnounced { user: String, move_name: String },
    UnknownMoveAnnounced { user: String, move_id: u32 },
    MoveFailedNarration,
    StatusInflicted { target: String, status: StatusCondition },
    StatusAlreadyPresent { target: String },
    StatRose { target: String, stat: StatName, stages: i8 },
    StatAtLimit { target: String, raising: bool },
    HealingNotImplemented,
    EffectNotImplemented,
    CriticalHit,
    RecoilDamage { user: String },
    SwitchAnnounced { outgoing: String, incoming: String },
    ItemUsedOn { user: String, item_name: String, target: String },
    ItemUsedBy { user: String, item_name: String },
    BallThrown { player: String, ball_name: String, wild: String },
    CaptureSucceeded { wild: String },
    BrokeFree { wild: String, shake_count: u8 },
    PlayerFled { player: String, wild: String },
    WildFledAnnounced { wild: String },
    CaptureNotAllowed,
    SurrenderAnnounced { player: String },
    SurrenderOutcome { player1_won: bool },
    ExpGainAnnounced { receiver: String, amount: u64 },
    LevelUpAnnounced { receiver: String, level: u32 },
    TeamDefeated { loser: String, winner: String },
    ComplexTurnOrder,
    InvalidEntity,
}

/// Event that occurs during battle, for client-side animation and logging.
#[derive(Debug, Clone)]
pub enum BattleEvent {
    MoveUsed { source: BattleEntityRef, move_id: u32, move_name: String, target: BattleEntityRef },
    DamageDealt {
        target: BattleEntityRef,
        damage: u32,
        new_hp: u32,
        max_hp: u32,
        effectiveness: Effectiveness,
        is_critical: bool,
    },
    Heal { target: BattleEntityRef, amount: u32, new_hp: u32, max_hp: u32 },
    StatusApplied { target: BattleEntityRef, status: StatusCondition },
    StatusRemoved { target: BattleEntityRef, status: StatusCondition },
    StatusDamage {
        target: BattleEntityRef,
        status: StatusCondition,
        damage: u32,
        new_hp: u32,
        max_hp: u32,
    },
    VolatileStatusApplied { target: BattleEntityRef, volatile_status: VolatileStatusType },
    VolatileStatusRemoved { target: BattleEntityRef, volatile_status: VolatileStatusType },
    StatChange {
        target: BattleEntityRef,
        stat: StatName,
        stages: i8,
        new_stage: i8,
        success: bool,
    },
    PokemonFainted { target: BattleEntityRef },
    SwitchIn { pokemon_view: BattlePokemonPublicView, team_index: usize },
    FieldEffectApplied { effect_type: FieldEffectType, target_side: EffectTargetSide },
    FieldEffectEnded { effect_type: FieldEffectType, target_side: EffectTargetSide },
    WeatherStarted { weather_type: WeatherType },
    WeatherEnded,
    MoveFailed { source: BattleEntityRef },
    ItemUsed { item_id: String, item_name: String, target: Option<BattleEntityRef> },
    CaptureAttempt { ball_type: BallType, shake_count: u8, success: bool },
    WildPokemonFled,
    PlayerRanAway { success: bool },
    GenericMessage { message: BattleMessage },
    TurnStart { turn_number: u32 },
    ExpGained { source: BattleEntityRef, amount: u64 },
}

/// Main battle state container for a wild Pokémon encounter.
#[derive(Debug, Clone)]
pub struct WildBattleState {
    pub battle_id: u128,
    pub player: BattlePlayer,
    pub wild_pokemon: BattlePokemon,
    pub turn_number: u32,
    pub battle_phase: BattlePhase,
    pub player_action: Option<PlayerAction>,
    pub wild_action: Option<WildPokemonAction>,
    pub turn_order: Option<TurnOrder>,
    pub field_state: FieldState,
    pub battle_log: Vec<BattleEvent>,
    pub capture_attempts: Vec<CaptureAttempt>,
}

impl WildBattleState {
    /// Both sides well-formed.
    pub open spec fn wf(&self) -> bool {
        &&& self.player.wf()
        &&& self.wild_pokemon.wf()
    }
}

/// Main battle state container for a PvP battle between two players.
#[derive(Debug, Clone)]
pub struct PvPBattleState {
    pub battle_id: u128,
    pub player1: BattlePlayer,
    pub player2: BattlePlayer,
    pub turn_number: u32,
    pub battle_phase: BattlePvPPhase,
    pub player1_action: Option<PlayerAction>,
    pub player2_action: Option<PlayerAction>,
    pub turn_order: Option<PvPTurnOrder>,
    pub field_state: FieldState,
    pub battle_log: Vec<BattleEvent>,
}

impl PvPBattleState {
    /// Both players well-formed.
    pub open spec fn wf(&self) -> bool {
        &&& self.player1.wf()
        &&& self.player2.wf()
    }

    /// Create a new PvP battle state, waiting for both players' actions on
    /// turn one, with an empty log.
    pub fn new(battle_id: u128, player1: BattlePlayer, player2: BattlePlayer) -> (state:
        PvPBattleState)
        ensures
            state.battle_id == battle_id,
            state.player1 == player1,
            state.player2 == player2,
            state.turn_number == 1,
            state.battle_phase == BattlePvPPhase::WaitingForBothPlayersActions,
            state.player1_action is None,
            state.player2_action is None,
            state.turn_order is None,
            state.battle_log@.len() == 0,
    {
        PvPBattleState {
            battle_id,
            player1,
            player2,
            turn_number: 1,
            battle_phase: BattlePvPPhase::WaitingForBothPlayersActions,
            player1_action: None,
            player2_action: None,
            turn_order: None,
            field_state: FieldState::default(),
            battle_log: Vec::new(),
        }
    }

    /// Get a reference to a player by ID: player 1 is checked first.
    pub fn get_player_by_id(&self, player_id: &str) -> (p: Option<&BattlePlayer>)
        ensures
            p == if self.player1.player_id@ == player_id@ {
                Some(&self.player1)
            } else if self.player2.player_id@ == player_id@ {
                Some(&self.player2)
            } else {
                None::<&BattlePlayer>
            },
    {
        if string_eq_str(&self.player1.player_id, player_id) {
            Some(&self.player1)
        } else if string_eq_str(&self.player2.player_id, player_id) {
            Some(&self.player2)
        } else {
            None
        }
    }

    /// Get the opponent's ID given a player ID.
    pub fn get_opponent_id(&self, player_id: &str) -> (r: Option<&str>)
        ensures
            match r {
                Some(s) => {
                    &&& (self.player1.player_id@ == player_id@ || self.player2.player_id@
                        == player_id@)
                    &&& if self.player1.player_id@ == player_id@ {
                        s@ == self.player2.player_id@
                    } else {
                        s@ == self.player1.player_id@
                    }
                },
                None => self.player1.player_id@ != player_id@ && self.player2.player_id@
                    != player_id@,
            },
    {
        if string_eq_str(&self.player1.player_id, player_id) {
            Some(self.player2.player_id.as_str())
        } else if string_eq_str(&self.player2.player_id, player_id) {
            Some(self.player1.player_id.as_str())
        } else {
            None
        }
    }

    /// Check if both players have submitted actions.
    pub fn both_actions_submitted(&self) -> (r: bool)
        ensures
            r == (self.player1_action is Some && self.player2_action is Some),
    {
        self.player1_action.is_some() && self.player2_action.is_some()
    }

    /// Whether every action the current phase still waits for is present.
    pub open spec fn spec_ready_for_processing(&self) -> bool {
        match self.battle_phase {
            BattlePvPPhase::WaitingForBothPlayersActions => self.player1_action is Some
                && self.player2_action is Some,
            BattlePvPPhase::WaitingForPlayer1Action => self.player1_action is Some,
            BattlePvPPhase::WaitingForPlayer2Action => self.player2_action is Some,
            _ => false,
        }
    }

    /// Check if a battle is ready to be processed.
    pub fn ready_for_processing(&self) -> (r: bool)
        ensures
            r == self.spec_ready_for_processing(),
    {
        match self.battle_phase {
            BattlePvPPhase::WaitingForBothPlayersActions => self.both_actions_submitted(),
            BattlePvPPhase::WaitingForPlayer1Action => self.player1_action.is_some(),
            BattlePvPPhase::WaitingForPlayer2Action => self.player2_action.is_some(),
            _ => false,
        }
    }
}

/// An element-for-element copy of a vector of copyable values.
pub fn clone_vec_copy<T: Copy>(v: &Vec<T>) -> (r: Vec<T>)
    ensures
        r@ == v@,
{
    let mut r: Vec<T> = Vec::new();
    let mut i: usize = 0;
    while i < v.len()
        invariant
            i <= v@.len(),
            r@ =~= v@.take(i as int),
        decreases v@.len() - i,
    {
        r.push(v[i]);
        i = i + 1;
    }
    proof {
        assert(v@.take(v@.len() as int) =~= v@);
    }
    r
}

/// View equality of a `String` against a `&str`.
pub fn string_eq_str(a: &String, b: &str) -> (r: bool)
    ensures
        r == (a@ == b@),
{
    *a == b.to_owned()
}

/// The healing a known potion-family item grants; unknown items heal
/// nothing (no status cure exists yet).
pub open spec fn spec_item_heal_amount(item_id: Seq<char>) -> u32 {
    if item_id == "potion"@ {
        20u32
    } else if item_id == "super_potion"@ {
        50u32
    } else if item_id == "hyper_potion"@ {
        100u32
    } else if item_id == "full_restore"@ {
        999u32
    } else {
        0u32
    }
}

/// The HP after healing: the amount added, capped at the maximum.
pub open spec fn spec_healed_hp(current_hp: u32, max_hp: u32, amount: u32) -> u32 {
    if max_hp - current_hp < amount {
        max_hp
    } else {
        (current_hp + amount) as u32
    }
}

/// The healing a known potion-family item grants.
pub fn item_heal_amount(item_id: &String) -> (r: u32)
    ensures
        r == spec_item_heal_amount(item_id@),
{
    if string_eq_str(item_id, "potion") {
        20
    } else if string_eq_str(item_id, "super_potion") {
        50
    } else if string_eq_str(item_id, "hyper_potion") {
        100
    } else if string_eq_str(item_id, "full_restore") {
        999
    } else {
        0
    }
}

/// Public view of a Pokémon, safe to show to the opponent: species, level,
/// HP percentage (never the exact HP), types, status, stages, faint flag.
#[derive(Debug, Clone)]
pub struct BattlePokemonPublicView {
    pub template_id: u32,
    pub name: String,
    pub level: u32,
    pub current_hp_percent: u32,
    pub max_hp: u32,
    pub types: Vec<PokemonType>,
    pub status: Option<StatusCondition>,
    pub stat_modifiers: BattleStatModifiers,
    pub is_fainted: bool,
    pub is_wild: bool,
}

/// The HP bar percentage: floor of current over max, in percent; zero for
/// an empty bar or a zero maximum.
pub open spec fn spec_hp_percent(current_hp: u32, max_hp: u32) -> u32 {
    if max_hp == 0 {
        0u32
    } else {
        (current_hp as int * 100 / max_hp as int) as u32
    }
}

/// The HP bar percentage of one Pokémon.
pub fn hp_percent(current_hp: u32, max_hp: u32) -> (p: u32)
    requires
        current_hp <= max_hp,
    ensures
        p == spec_hp_percent(current_hp, max_hp),
        p <= 100,
{
    if max_hp == 0 {
        0
    } else {
        let wide: u64 = current_hp as u64 * 100;
        proof {
            assert(current_hp as int * 100 / max_hp as int <= 100) by (nonlinear_arith)
                requires
                    0 < max_hp,
                    current_hp <= max_hp,
            ;
        }
        (wide / max_hp as u64) as u32
    }
}

impl BattlePokemonPublicView {
    /// The public projection of a battling Pokémon.
    pub fn from_battle_pokemon(pokemon: &BattlePokemon) -> (v: BattlePokemonPublicView)
        requires
            pokemon.current_hp <= pokemon.max_hp,
        ensures
            v.template_id == pokemon.template_id,
            v.name == pokemon.name,
            v.level == pokemon.level,
            v.current_hp_percent == spec_hp_percent(pokemon.current_hp, pokemon.max_hp),
            v.max_hp == pokemon.max_hp,
            v.types@ == pokemon.pokemon_types@,
            v.status == pokemon.status,
            v.stat_modifiers == pokemon.stat_modifiers,
            v.is_fainted == pokemon.is_fainted,
            v.is_wild == pokemon.is_wild,
    {
        BattlePokemonPublicView {
            template_id: pokemon.template_id,
            name: pokemon.name.clone(),
            level: pokemon.level,
            current_hp_percent: hp_percent(pokemon.current_hp, pokemon.max_hp),
            max_hp: pokemon.max_hp,
            types: clone_vec_copy(&pokemon.pokemon_types),
            status: pokemon.status,
            stat_modifiers: pokemon.stat_modifiers,
            is_fainted: pokemon.is_fainted,
            is_wild: pokemon.is_wild,
        }
    }
}

/// View of a move with details needed for the UI.
#[derive(Debug, Clone)]
pub struct BattleMoveView {
    pub move_id: u32,
    pub name: String,
    pub move_type: PokemonType,
    pub category: crate::moves::MoveCategory,
    pub current_pp: u8,
    pub max_pp: u8,
    pub power: Option<u32>,
    pub accuracy: Option<u8>,
    pub description: String,
}

/// Private view with full details, for the Pokémon's own owner only:
/// exact HP, ability, the full move list with PP, volatile statuses.
#[derive(Debug, Clone)]
pub struct BattlePokemonPrivateView {
    pub template_id: u32,
    pub name: String,
    pub level: u32,
    pub current_hp: u32,
    pub current_hp_percent: u32,
    pub max_hp: u32,
    pub types: Vec<PokemonType>,
    pub ability: String,
    pub status: Option<StatusCondition>,
    pub volatile_statuses: Vec<VolatileStatusType>,
    pub stat_modifiers: BattleStatModifiers,
    pub moves: Vec<BattleMoveView>,
    pub is_fainted: bool,
    pub team_index: usize,
}

impl BattlePokemonPrivateView {
    /// The private projection of a battling Pokémon; move names and details
    /// come from the repository where it knows the move.
    pub fn from_battle_pokemon(
        pokemon: &BattlePokemon,
        move_repo: Option<&MoveRepository>,
    ) -> (v: BattlePokemonPrivateView)
        requires
            pokemon.current_hp <= pokemon.max_hp,
        ensures
            v.template_id == pokemon.template_id,
            v.name == pokemon.name,
            v.level == pokemon.level,
            v.current_hp == pokemon.current_hp,
            v.current_hp_percent == spec_hp_percent(pokemon.current_hp, pokemon.max_hp),
            v.max_hp == pokemon.max_hp,
            v.types@ == pokemon.pokemon_types@,
            v.ability == pokemon.ability,
            v.status == pokemon.status,
            v.stat_modifiers == pokemon.stat_modifiers,
            v.is_fainted == pokemon.is_fainted,
            v.team_index == pokemon.position,
            v.moves@.len() == pokemon.moves@.len(),
            forall|i: int|
                0 <= i < v.moves@.len() ==> {
                    &&& (#[trigger] v.moves@[i]).move_id == pokemon.moves@[i].move_id
                    &&& v.moves@[i].current_pp == pokemon.moves@[i].current_pp
                    &&& v.moves@[i].max_pp == pokemon.moves@[i].max_pp
                },
            v.volatile_statuses@.len() == pokemon.volatile_statuses@.len(),
    {
        let mut move_views: Vec<BattleMoveView> = Vec::new();
        let mut i: usize = 0;
        while i < pokemon.moves.len()
            invariant
                i <= pokemon.moves@.len(),
                move_views@.len() == i,
                forall|j: int|
                    0 <= j < i ==> {
                        &&& (#[trigger] move_views@[j]).move_id == pokemon.moves@[j].move_id
                        &&& move_views@[j].current_pp == pokemon.moves@[j].current_pp
                        &&& move_views@[j].max_pp == pokemon.moves@[j].max_pp
                    },
            decreases pokemon.moves@.len() - i,
        {
            let m = &pokemon.moves[i];
            let view = match move_repo {
                Some(repo) => match repo.get_move(m.move_id) {
                    Some(data) => BattleMoveView {
                        move_id: m.move_id,
                        name: data.name.clone(),
                        move_type: data.move_type,
                        category: data.damage_class,
                        current_pp: m.current_pp,
                        max_pp: m.max_pp,
                        power: data.power,
                        accuracy: data.accuracy,
                        description: data.description.clone(),
                    },
                    None => unknown_move_view(m),
                },
                None => unknown_move_view(m),
            };
            move_views.push(view);
            i = i + 1;
        }
        let mut volatile: Vec<VolatileStatusType> = Vec::new();
        let mut k: usize = 0;
        while k < pokemon.volatile_statuses.len()
            invariant
                k <= pokemon.volatile_statuses@.len(),
                volatile@.len() == k,
            decreases pokemon.volatile_statuses@.len() - k,
        {
            volatile.push(pokemon.volatile_statuses[k].0);
            k = k + 1;
        }
        BattlePokemonPrivateView {
            template_id: pokemon.template_id,
            name: pokemon.name.clone(),
            level: pokemon.level,
            current_hp: pokemon.current_hp,
            current_hp_percent: hp_percent(pokemon.current_hp, pokemon.max_hp),
            max_hp: pokemon.max_hp,
            types: clone_vec_copy(&pokemon.pokemon_types),
            ability: pokemon.ability.clone(),
            status: pokemon.status,
            volatile_statuses: volatile,
            stat_modifiers: pokemon.stat_modifiers,
            moves: move_views,
            is_fainted: pokemon.is_fainted,
            team_index: pokemon.position,
        }
    }
}

/// The placeholder view of a move the repository does not know.
fn unknown_move_view(m: &BattleMove) -> (v: BattleMoveView)
    ensures
        v.move_id == m.move_id,
        v.current_pp == m.current_pp,
        v.max_pp == m.max_pp,
{
    BattleMoveView {
        move_id: m.move_id,
        name: "Unknown Move".to_owned(),
        move_type: PokemonType::Normal,
        category: crate::moves::MoveCategory::Physical,
        current_pp: m.current_pp,
        max_pp: m.max_pp,
        power: None,
        accuracy: None,
        description: String::new(),
    }
}

/// Minimal info for the team sidebar UI.
#[derive(Debug, Clone)]
pub struct BattlePokemonTeamOverview {
    pub template_id: u32,
    pub name: String,
    pub level: u32,
    pub current_hp_percent: u32,
    pub current_hp: u32,
    pub max_hp: u32,
    pub status: Option<StatusCondition>,
    pub is_fainted: bool,
    pub team_index: usize,
}

impl BattlePokemonTeamOverview {
    /// The sidebar projection of a battling Pokémon.
    pub fn from_battle_pokemon(pokemon: &BattlePokemon) -> (v: BattlePokemonTeamOverview)
        requires
            pokemon.current_hp <= pokemon.max_hp,
        ensures
            v.template_id == pokemon.template_id,
            v.name == pokemon.name,
            v.level == pokemon.level,
            v.current_hp_percent == spec_hp_percent(pokemon.current_hp, pokemon.max_hp),
            v.current_hp == pokemon.current_hp,
            v.max_hp == pokemon.max_hp,
            v.status == pokemon.status,
            v.is_fainted == pokemon.is_fainted,
            v.team_index == pokemon.position,
    {
        BattlePokemonTeamOverview {
            template_id: pokemon.template_id,
            name: pokemon.name.clone(),
            level: pokemon.level,
            current_hp_percent: hp_percent(pokemon.current_hp, pokemon.max_hp),
            current_hp: pokemon.current_hp,
            max_hp: pokemon.max_hp,
            status: pokemon.status,
            is_fainted: pokemon.is_fainted,
            team_index: pokemon.position,
        }
    }
}

} // verus!
