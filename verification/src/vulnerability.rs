//! Vulnerability tracking and the game-over resolver.
//!
//! Independent subsystems (door, pizza delivery, mini-games) raise flags
//! here; once per frame the resolver reads them and, on the first match of a
//! fixed priority order, ends the run with a typed reason. Flags only go up
//! within a session except where the resolving activity explicitly clears
//! them (answering the door clears the at-door state).

use vstd::prelude::*;
use crate::game_over::{GameOverData, GameOverReason};
use crate::states::{GameState, StateStack};

verus! {

#[derive(Debug, Clone, Copy, PartialEq, Eq, Structural)]
pub enum BoolVulnerabilityType {
    BedDoorLeftOpen,
    TooManyRageQuit,
    TicTacToeLosing,
    LabyrinthLosing,
    LabyrinthWinning,
    NeedsDepleted,
}

/// Who or what stands at the apartment door.
#[derive(Debug, Clone, Copy, PartialEq, Eq, Structural)]
pub enum AtDoorType {
    Nobody,
    DeliveryPerson,
    Npc,
}

/// The bag of vulnerability state: one field per flag, the at-door tri-state,
/// the hiding flag, and the identities the player has made enemies of.
pub struct VulnerabilityResource {
    pub bed_door_left_open: bool,
    pub too_many_ragequit: bool,
    pub tictactoe_losing: bool,
    pub labyrinth_losing: bool,
    pub labyrinth_winning: bool,
    pub needs_depleted: bool,
    pub at_door: AtDoorType,
    pub is_hiding: bool,
    pub enemies: Vec<String>,
}

/// Reads one flag.
pub open spec fn spec_flag(v: VulnerabilityResource, kind: BoolVulnerabilityType) -> bool {
    match kind {
        BoolVulnerabilityType::BedDoorLeftOpen => v.bed_door_left_open,
        BoolVulnerabilityType::TooManyRageQuit => v.too_many_ragequit,
        BoolVulnerabilityType::TicTacToeLosing => v.tictactoe_losing,
        BoolVulnerabilityType::LabyrinthLosing => v.labyrinth_losing,
        BoolVulnerabilityType::LabyrinthWinning => v.labyrinth_winning,
        BoolVulnerabilityType::NeedsDepleted => v.needs_depleted,
    }
}

impl VulnerabilityResource {
    /// A fresh session: nothing raised, nobody at the door, not hiding.
    pub fn new() -> (r: VulnerabilityResource)
        ensures
            forall|k: BoolVulnerabilityType| !spec_flag(r, k),
            r.at_door == AtDoorType::Nobody,
            !r.is_hiding,
            r.enemies@.len() == 0,
    {
        let r = VulnerabilityResource {
            bed_door_left_open: false,
            too_many_ragequit: false,
            tictactoe_losing: false,
            labyrinth_losing: false,
            labyrinth_winning: false,
            needs_depleted: false,
            at_door: AtDoorType::Nobody,
            is_hiding: false,
            enemies: Vec::new(),
        };
        proof {
            assert(forall|k: BoolVulnerabilityType| !spec_flag(r, k));
        }
        r
    }

    /// Raises one flag; idempotent, and no other state is touched.
    pub fn raise(&mut self, kind: BoolVulnerabilityType)
        ensures
            spec_flag(*final(self), kind),
            forall|k: BoolVulnerabilityType| k != kind ==> spec_flag(*final(self), k) == spec_flag(
                *old(self),
                k,
            ),
            final(self).at_door == old(self).at_door,
            final(self).is_hiding == old(self).is_hiding,
            final(self).enemies == old(self).enemies,
    {
        match kind {
            BoolVulnerabilityType::BedDoorLeftOpen => self.bed_door_left_open = true,
            BoolVulnerabilityType::TooManyRageQuit => self.too_many_ragequit = true,
            BoolVulnerabilityType::TicTacToeLosing => self.tictactoe_losing = true,
            BoolVulnerabilityType::LabyrinthLosing => self.labyrinth_losing = true,
            BoolVulnerabilityType::LabyrinthWinning => self.labyrinth_winning = true,
            BoolVulnerabilityType::NeedsDepleted => self.needs_depleted = true,
        }
    }

    /// Reads one flag.
    pub fn flag(&self, kind: BoolVulnerabilityType) -> (r: bool)
        ensures
            r == spec_flag(*self, kind),
    {
        match kind {
            BoolVulnerabilityType::BedDoorLeftOpen => self.bed_door_left_open,
            BoolVulnerabilityType::TooManyRageQuit => self.too_many_ragequit,
            BoolVulnerabilityType::TicTacToeLosing => self.tictactoe_losing,
            BoolVulnerabilityType::LabyrinthLosing => self.labyrinth_losing,
            BoolVulnerabilityType::LabyrinthWinning => self.labyrinth_winning,
            BoolVulnerabilityType::NeedsDepleted => self.needs_depleted,
        }
    }
}

/// The resolver's verdict for a given vulnerability state: the first reason,
/// in the fixed priority order, whose predicate holds.
pub open spec fn spec_resolve(v: VulnerabilityResource) -> Option<GameOverReason> {
    if v.bed_door_left_open && v.enemies@.len() > 0 {
        Some(GameOverReason::DoorLeftOpen)
    } else if v.too_many_ragequit {
        Some(GameOverReason::TooManyRageQuit)
    } else if v.tictactoe_losing {
        Some(GameOverReason::TicTacToeLosing)
    } else if v.labyrinth_losing {
        Some(GameOverReason::LabyrinthLosing)
    } else if v.labyrinth_winning {
        Some(GameOverReason::LabyrinthWinning)
    } else if v.needs_depleted {
        Some(GameOverReason::NeedsDepleted)
    } else {
        None
    }
}

/// Whether the scare that goes with a reason hides the player sprite (the
/// bedroom scare plays over the sleeping player).
pub open spec fn spec_hides_player(reason: GameOverReason) -> bool {
    reason == GameOverReason::DoorLeftOpen
}

/// Evaluates the priority-ordered predicates over the current flags.
pub fn resolve(v: &VulnerabilityResource) -> (r: Option<GameOverReason>)
    ensures
        r == spec_resolve(*v),
{
    if v.bed_door_left_open && v.enemies.len() > 0 {
        Some(GameOverReason::DoorLeftOpen)
    } else if v.too_many_ragequit {
        Some(GameOverReason::TooManyRageQuit)
    } else if v.tictactoe_losing {
        Some(GameOverReason::TicTacToeLosing)
    } else if v.labyrinth_losing {
        Some(GameOverReason::LabyrinthLosing)
    } else if v.labyrinth_winning {
        Some(GameOverReason::LabyrinthWinning)
    } else if v.needs_depleted {
        Some(GameOverReason::NeedsDepleted)
    } else {
        None
    }
}

/// The once-per-frame resolver pass. While the run is not already over, the
/// first matching predicate replaces the current mode with `GameOverState`
/// and records the reason and the hide-sprite directive; with no match, or
/// once the game is over, nothing changes.
pub fn run_resolver(
    v: &VulnerabilityResource,
    app_state: &mut StateStack,
    go_data: &mut GameOverData,
)
    requires
        old(app_state).wf(),
    ensures
        final(app_state).wf(),
        old(app_state).spec_current() == GameState::GameOverState ==> *final(app_state)
            == *old(app_state) && *final(go_data) == *old(go_data),
        old(app_state).spec_current() != GameState::GameOverState && spec_resolve(*v) is None
            ==> *final(app_state) == *old(app_state) && *final(go_data) == *old(go_data),
        old(app_state).spec_current() != GameState::GameOverState && spec_resolve(*v) is Some ==> {
            &&& final(app_state).spec_current() == GameState::GameOverState
            &&& final(go_data).reason == spec_resolve(*v)
            &&& final(go_data).hide_player_sprite == spec_hides_player(
                spec_resolve(*v).unwrap(),
            )
        },
{
    if app_state.current() == GameState::GameOverState {
        return;
    }
    match resolve(v) {
        None => {},
        Some(reason) => {
            go_data.reason = Some(reason);
            go_data.hide_player_sprite = match reason {
                GameOverReason::DoorLeftOpen => true,
                _ => false,
            };
            let _ = app_state.set(GameState::GameOverState);
        },
    }
}

} // verus!
