//! The decision cores of the apartment interactions: what a key press in
//! front of each interactable does to the state stack, the needs, the
//! vulnerability flags and the pizza delivery. The presentation layer
//! reports proximity and key presses and runs the timers; every rule lives
//! here.

use vstd::prelude::*;
use crate::game_over::{GameOverData, GameOverReason};
use crate::games::ConsoleGamesData;
use crate::needs::{Hunger, PeePeePooPoo, Sleepiness, LOW_NEED};
use crate::states::{GameState, StateStack};
use crate::vulnerability::{AtDoorType, BoolVulnerabilityType, VulnerabilityResource, spec_flag};

verus! {

/// What the player can stand near and act on.
#[derive(Debug, Clone, Copy, PartialEq, Eq, Hash, Structural)]
pub enum InteractableType {
    Desk,
    Bed,
    ClosedDoor,
    OpenDoor,
    Toilet,
    Phone,
    Pizza,
}

/// Where the ordered pizza stands.
#[derive(Debug, Clone, Copy, PartialEq, Eq, Structural)]
pub enum PizzaDeliveryStatus {
    Delivered,
    AtDoor,
    Unordered,
    Ordered,
}

/// Opening the console at the desk: only from the overworld.
pub fn trigger_open_console(app_state: &mut StateStack) -> (opened: bool)
    requires
        old(app_state).wf(),
    ensures
        final(app_state).wf(),
        opened == (old(app_state).spec_current() == GameState::MainGame),
        opened ==> final(app_state).states() =~= old(app_state).states().push(
            GameState::ConsoleOpenedState,
        ),
        !opened ==> *final(app_state) == *old(app_state),
{
    if app_state.current() == GameState::MainGame {
        let ok = app_state.push(GameState::ConsoleOpenedState);
        ok
    } else {
        false
    }
}

/// Closing the console: pops back to the overworld and, where the labyrinth
/// was beaten this session, raises the winning flag for the resolver.
pub fn close_console(
    app_state: &mut StateStack,
    cg_data: &ConsoleGamesData,
    vuln_res: &mut VulnerabilityResource,
)
    requires
        old(app_state).wf(),
    ensures
        final(app_state).wf(),
        old(app_state).spec_current() != GameState::ConsoleOpenedState ==> *final(app_state)
            == *old(app_state) && *final(vuln_res) == *old(vuln_res),
        old(app_state).spec_current() == GameState::ConsoleOpenedState && old(app_state).states().len() > 1 ==> final(app_state).states() =~= old(app_state).states().drop_last(),
        old(app_state).spec_current() == GameState::ConsoleOpenedState && cg_data.has_won_laby
            ==> spec_flag(*final(vuln_res), BoolVulnerabilityType::LabyrinthWinning),
        old(app_state).spec_current() == GameState::ConsoleOpenedState && !cg_data.has_won_laby
            ==> *final(vuln_res) == *old(vuln_res),
{
    if app_state.current() == GameState::ConsoleOpenedState {
        let _ = app_state.pop();
        if cg_data.has_won_laby {
            vuln_res.raise(BoolVulnerabilityType::LabyrinthWinning);
        }
    }
}

/// Going to bed: allowed once tired enough, from the overworld; sleeping
/// with the front door open is recorded as a vulnerability.
pub fn interact_bed(
    sleepiness: &Sleepiness,
    door_is_open: bool,
    app_state: &mut StateStack,
    vuln_res: &mut VulnerabilityResource,
) -> (slept: bool)
    requires
        old(app_state).wf(),
    ensures
        final(app_state).wf(),
        slept == (sleepiness.0 <= LOW_NEED && old(app_state).spec_current()
            == GameState::MainGame),
        slept ==> final(app_state).states() =~= old(app_state).states().push(
            GameState::PlayerSleepingState,
        ),
        !slept ==> *final(app_state) == *old(app_state) && *final(vuln_res) == *old(vuln_res),
        slept && door_is_open ==> spec_flag(
            *final(vuln_res),
            BoolVulnerabilityType::BedDoorLeftOpen,
        ),
        slept && !door_is_open ==> *final(vuln_res) == *old(vuln_res),
{
    if sleepiness.is_low() && app_state.current() == GameState::MainGame {
        let _ = app_state.push(GameState::PlayerSleepingState);
        if door_is_open {
            vuln_res.raise(BoolVulnerabilityType::BedDoorLeftOpen);
        }
        true
    } else {
        false
    }
}

/// Hiding under the bed, from the overworld.
pub fn start_hiding(app_state: &mut StateStack, vuln_res: &mut VulnerabilityResource) -> (hid:
    bool)
    requires
        old(app_state).wf(),
    ensures
        final(app_state).wf(),
        hid == (old(app_state).spec_current() == GameState::MainGame),
        hid ==> final(app_state).states() =~= old(app_state).states().push(
            GameState::PlayerHidingState,
        ) && final(vuln_res).is_hiding,
        !hid ==> *final(app_state) == *old(app_state) && *final(vuln_res) == *old(vuln_res),
{
    if app_state.current() == GameState::MainGame {
        let _ = app_state.push(GameState::PlayerHidingState);
        vuln_res.is_hiding = true;
        true
    } else {
        false
    }
}

/// Coming out from under the bed.
pub fn exit_hiding(app_state: &mut StateStack, vuln_res: &mut VulnerabilityResource)
    requires
        old(app_state).wf(),
    ensures
        final(app_state).wf(),
        old(app_state).spec_current() != GameState::PlayerHidingState ==> *final(app_state)
            == *old(app_state) && *final(vuln_res) == *old(vuln_res),
        old(app_state).spec_current() == GameState::PlayerHidingState ==> !final(vuln_res).is_hiding && (old(app_state).states().len() > 1 ==> final(app_state).states() =~= old(app_state).states().drop_last()),
{
    if app_state.current() == GameState::PlayerHidingState {
        vuln_res.is_hiding = false;
        let _ = app_state.pop();
    }
}

/// What the end of the sleep timer brings.
#[derive(Debug, Clone, Copy, PartialEq, Eq, Structural)]
pub enum WakeOutcome {
    /// The open door let something in: the run ends with the bedroom scare.
    Scare,
    /// A plain morning; where a pizza was on order, the delivery is due now.
    WokeUp,
}

/// The sleep timer has finished: either the door-left-open scare ends the
/// run (the sprite hidden under the scare), or the player wakes fully
/// rested.
pub fn sleeping_finished(
    app_state: &mut StateStack,
    sleepiness: &mut Sleepiness,
    vuln_res: &VulnerabilityResource,
    go_data: &mut GameOverData,
) -> (r: WakeOutcome)
    requires
        old(app_state).wf(),
        old(app_state).spec_current() == GameState::PlayerSleepingState,
    ensures
        final(app_state).wf(),
        r == WakeOutcome::Scare <==> (vuln_res.bed_door_left_open && vuln_res.enemies@.len() > 0),
        r == WakeOutcome::Scare ==> {
            &&& final(go_data).reason == Some(GameOverReason::DoorLeftOpen)
            &&& final(go_data).hide_player_sprite
            &&& final(app_state).spec_current() == GameState::GameOverState
            &&& final(sleepiness).0 == old(sleepiness).0
        },
        r == WakeOutcome::WokeUp ==> {
            &&& final(sleepiness).0 == 100
            &&& *final(go_data) == *old(go_data)
            &&& (old(app_state).states().len() > 1 ==> final(app_state).states() =~= old(app_state).states().drop_last())
        },
{
    if vuln_res.bed_door_left_open && vuln_res.enemies.len() > 0 {
        go_data.reason = Some(GameOverReason::DoorLeftOpen);
        go_data.hide_player_sprite = true;
        let _ = app_state.set(GameState::GameOverState);
        WakeOutcome::Scare
    } else {
        sleepiness.0 = 100;
        let _ = app_state.pop();
        WakeOutcome::WokeUp
    }
}

/// Using the toilet: allowed once the need is low enough, from the
/// overworld; otherwise the refusal message is the caller's to show.
pub fn interact_toilet(peepeepoopoo: &PeePeePooPoo, app_state: &mut StateStack) -> (went: bool)
    requires
        old(app_state).wf(),
    ensures
        final(app_state).wf(),
        went == (peepeepoopoo.0 <= LOW_NEED && old(app_state).spec_current()
            == GameState::MainGame),
        went ==> final(app_state).states() =~= old(app_state).states().push(
            GameState::PlayerPeeingState,
        ),
        !went ==> *final(app_state) == *old(app_state),
{
    if peepeepoopoo.is_low() && app_state.current() == GameState::MainGame {
        let _ = app_state.push(GameState::PlayerPeeingState);
        true
    } else {
        false
    }
}

/// The toilet timer has finished: the need refills exactly.
pub fn peeing_finished(app_state: &mut StateStack, peepeepoopoo: &mut PeePeePooPoo)
    requires
        old(app_state).wf(),
        old(app_state).spec_current() == GameState::PlayerPeeingState,
    ensures
        final(app_state).wf(),
        final(peepeepoopoo).0 == 100,
        old(app_state).states().len() > 1 ==> final(app_state).states() =~= old(app_state).states().drop_last(),
{
    peepeepoopoo.0 = 100;
    let _ = app_state.pop();
}

/// Eating the delivered pizza: allowed once hungry enough, from the
/// overworld, and only with a pizza there.
pub fn interact_pizza(
    hunger: &Hunger,
    status: PizzaDeliveryStatus,
    app_state: &mut StateStack,
) -> (eating: bool)
    requires
        old(app_state).wf(),
    ensures
        final(app_state).wf(),
        eating == (status == PizzaDeliveryStatus::Delivered && hunger.0 <= LOW_NEED && old(app_state).spec_current() == GameState::MainGame),
        eating ==> final(app_state).states() =~= old(app_state).states().push(
            GameState::PlayerEatingState,
        ),
        !eating ==> *final(app_state) == *old(app_state),
{
    if status == PizzaDeliveryStatus::Delivered && hunger.is_low() && app_state.current()
        == GameState::MainGame {
        let _ = app_state.push(GameState::PlayerEatingState);
        true
    } else {
        false
    }
}

/// The eating timer has finished: the need refills exactly and the pizza is
/// gone.
pub fn eating_finished(
    app_state: &mut StateStack,
    hunger: &mut Hunger,
    status: &mut PizzaDeliveryStatus,
)
    requires
        old(app_state).wf(),
        old(app_state).spec_current() == GameState::PlayerEatingState,
    ensures
        final(app_state).wf(),
        final(hunger).0 == 100,
        *final(status) == PizzaDeliveryStatus::Unordered,
        old(app_state).states().len() > 1 ==> final(app_state).states() =~= old(app_state).states().drop_last(),
{
    hunger.0 = 100;
    let _ = app_state.pop();
    *status = PizzaDeliveryStatus::Unordered;
}

/// What picking up the phone does.
#[derive(Debug, Clone, Copy, PartialEq, Eq, Structural)]
pub enum PhoneOutcome {
    PizzaAlreadyHere,
    AlreadyOrdered,
    StartedOrdering,
    NothingHappened,
}

/// Using the phone: starts an order only when nothing is ordered or
/// delivered yet; the other outcomes are the captions the caller shows.
pub fn interact_phone(status: PizzaDeliveryStatus, app_state: &mut StateStack) -> (r: PhoneOutcome)
    requires
        old(app_state).wf(),
    ensures
        final(app_state).wf(),
        old(app_state).spec_current() != GameState::MainGame ==> r
            == PhoneOutcome::NothingHappened && *final(app_state) == *old(app_state),
        old(app_state).spec_current() == GameState::MainGame ==> {
            &&& (status == PizzaDeliveryStatus::Delivered ==> r == PhoneOutcome::PizzaAlreadyHere
                && *final(app_state) == *old(app_state))
            &&& (status == PizzaDeliveryStatus::Ordered || status == PizzaDeliveryStatus::AtDoor
                ==> r == PhoneOutcome::AlreadyOrdered && *final(app_state) == *old(app_state))
            &&& (status == PizzaDeliveryStatus::Unordered ==> r == PhoneOutcome::StartedOrdering
                && final(app_state).states() =~= old(app_state).states().push(
                GameState::PlayerOrderingPizzaState,
            ))
        },
{
    if app_state.current() != GameState::MainGame {
        return PhoneOutcome::NothingHappened;
    }
    match status {
        PizzaDeliveryStatus::Delivered => PhoneOutcome::PizzaAlreadyHere,
        PizzaDeliveryStatus::Ordered => PhoneOutcome::AlreadyOrdered,
        PizzaDeliveryStatus::AtDoor => PhoneOutcome::AlreadyOrdered,
        PizzaDeliveryStatus::Unordered => {
            let _ = app_state.push(GameState::PlayerOrderingPizzaState);
            PhoneOutcome::StartedOrdering
        },
    }
}

/// The phone call has finished: the order is placed.
pub fn ordering_finished(app_state: &mut StateStack, status: &mut PizzaDeliveryStatus)
    requires
        old(app_state).wf(),
        old(app_state).spec_current() == GameState::PlayerOrderingPizzaState,
    ensures
        final(app_state).wf(),
        *final(status) == PizzaDeliveryStatus::Ordered,
        old(app_state).states().len() > 1 ==> final(app_state).states() =~= old(app_state).states().drop_last(),
{
    let _ = app_state.pop();
    *status = PizzaDeliveryStatus::Ordered;
}

/// The delivery timer has finished: someone knocks. Whether an intruder
/// poses as the delivery (the caller draws that from its vulnerability
/// level), the knock puts somebody at the door; a real delivery also starts
/// the at-door countdown.
pub fn delivery_arrived(
    status: &mut PizzaDeliveryStatus,
    vuln_res: &mut VulnerabilityResource,
    npc_trick: bool,
)
    requires
        *old(status) == PizzaDeliveryStatus::Ordered,
    ensures
        npc_trick ==> final(vuln_res).at_door == AtDoorType::Npc && *final(status)
            == PizzaDeliveryStatus::Ordered,
        !npc_trick ==> final(vuln_res).at_door == AtDoorType::DeliveryPerson && *final(status)
            == PizzaDeliveryStatus::AtDoor,
        final(vuln_res).bed_door_left_open == old(vuln_res).bed_door_left_open,
        final(vuln_res).too_many_ragequit == old(vuln_res).too_many_ragequit,
        final(vuln_res).tictactoe_losing == old(vuln_res).tictactoe_losing,
        final(vuln_res).labyrinth_losing == old(vuln_res).labyrinth_losing,
        final(vuln_res).labyrinth_winning == old(vuln_res).labyrinth_winning,
        final(vuln_res).is_hiding == old(vuln_res).is_hiding,
        final(vuln_res).enemies == old(vuln_res).enemies,
{
    if npc_trick {
        vuln_res.at_door = AtDoorType::Npc;
    } else {
        *status = PizzaDeliveryStatus::AtDoor;
        vuln_res.at_door = AtDoorType::DeliveryPerson;
    }
}

/// The at-door countdown ran out unanswered: the delivery person leaves.
pub fn delivery_person_left(status: &mut PizzaDeliveryStatus, vuln_res: &mut VulnerabilityResource)
    requires
        *old(status) == PizzaDeliveryStatus::AtDoor,
    ensures
        *final(status) == PizzaDeliveryStatus::Unordered,
        final(vuln_res).at_door == AtDoorType::Nobody,
        final(vuln_res).bed_door_left_open == old(vuln_res).bed_door_left_open,
        final(vuln_res).enemies == old(vuln_res).enemies,
{
    *status = PizzaDeliveryStatus::Unordered;
    vuln_res.at_door = AtDoorType::Nobody;
}

/// The door stands open while the delivery waits: the pizza is handed over.
pub fn delivery_received(status: &mut PizzaDeliveryStatus, vuln_res: &mut VulnerabilityResource)
    requires
        *old(status) == PizzaDeliveryStatus::AtDoor,
    ensures
        *final(status) == PizzaDeliveryStatus::Delivered,
        final(vuln_res).at_door == AtDoorType::Nobody,
        final(vuln_res).bed_door_left_open == old(vuln_res).bed_door_left_open,
        final(vuln_res).enemies == old(vuln_res).enemies,
{
    *status = PizzaDeliveryStatus::Delivered;
    vuln_res.at_door = AtDoorType::Nobody;
}

/// What opening the front door brings.
#[derive(Debug, Clone, Copy, PartialEq, Eq, Structural)]
pub enum DoorOutcome {
    /// An intruder was waiting: the run ends at once.
    LetThemIn,
    /// A plain open door.
    Opened,
}

/// Opening the front door from the overworld: with an intruder waiting, the
/// run ends with the let-them-in reason.
pub fn open_door(
    app_state: &mut StateStack,
    vuln_res: &VulnerabilityResource,
    go_data: &mut GameOverData,
) -> (r: DoorOutcome)
    requires
        old(app_state).wf(),
        old(app_state).spec_current() == GameState::MainGame,
    ensures
        final(app_state).wf(),
        r == DoorOutcome::LetThemIn <==> vuln_res.at_door == AtDoorType::Npc,
        r == DoorOutcome::LetThemIn ==> final(go_data).reason == Some(GameOverReason::LetThemIn)
            && final(app_state).spec_current() == GameState::GameOverState,
        r == DoorOutcome::Opened ==> *final(app_state) == *old(app_state) && *final(go_data)
            == *old(go_data),
{
    if vuln_res.at_door == AtDoorType::Npc {
        go_data.reason = Some(GameOverReason::LetThemIn);
        let _ = app_state.set(GameState::GameOverState);
        DoorOutcome::LetThemIn
    } else {
        DoorOutcome::Opened
    }
}

/// Checking the peephole from the overworld; what stands behind it is read
/// from the at-door state by the caller.
pub fn check_peephole(app_state: &mut StateStack) -> (looked: bool)
    requires
        old(app_state).wf(),
    ensures
        final(app_state).wf(),
        looked == (old(app_state).spec_current() == GameState::MainGame),
        looked ==> final(app_state).states() =~= old(app_state).states().push(
            GameState::PeepholeOpenedState,
        ),
        !looked ==> *final(app_state) == *old(app_state),
{
    if app_state.current() == GameState::MainGame {
        let _ = app_state.push(GameState::PeepholeOpenedState);
        true
    } else {
        false
    }
}

/// Stepping back from the peephole.
pub fn exit_peephole(app_state: &mut StateStack)
    requires
        old(app_state).wf(),
    ensures
        final(app_state).wf(),
        old(app_state).spec_current() != GameState::PeepholeOpenedState ==> *final(app_state)
            == *old(app_state),
        old(app_state).spec_current() == GameState::PeepholeOpenedState && old(app_state).states().len() > 1 ==> final(app_state).states() =~= old(app_state).states().drop_last(),
{
    if app_state.current() == GameState::PeepholeOpenedState {
        let _ = app_state.pop();
    }
}

} // verus!
