//! The labyrinth mini-game's session data: the player's combat stats, the
//! current room, the data tables, and the corridor geometry.
//!
//! All health and damage values are quarter points (four units to one
//! displayed point), so the engine's 0.5-, 1- and 2.5-fold arithmetic is
//! exact.

use vstd::prelude::*;
use crate::laby_art;
use crate::laby_enemies::{enemy_eqv, enemy_wf, Enemy};
use crate::laby_items::ItemType;
use crate::npcs::NPCData;
use crate::rng::GameRng;
use crate::text::{eq_lower, spec_lower};

verus! {

/// Unsigned 32-bit addition that stops at the ceiling.
pub open spec fn sat_add_u32(a: int, b: int) -> int {
    if a + b > u32::MAX {
        u32::MAX as int
    } else {
        a + b
    }
}

/// The two phases of a labyrinth run.
#[derive(Debug, Clone, Copy, PartialEq, Eq, Structural)]
pub enum GameState {
    Tutorial,
    Exploring,
}

/// What the player submitted on a combat turn.
#[derive(Debug, Clone, Copy, PartialEq, Eq, Structural)]
pub enum PlayerActions {
    Attack,
    Prepare,
    Protect,
}

/// The player's combat stats. `health`, `max_health` and `damages` are
/// quarter points; `action` is the move just submitted and `last_action` the
/// one before it.
#[derive(Debug)]
pub struct PlayerStats {
    pub health: u32,
    pub max_health: u32,
    pub level: u32,
    pub exp: u32,
    pub damages: u32,
    pub action: PlayerActions,
    pub last_action: PlayerActions,
}

/// The player's health never passes its positive maximum.
pub open spec fn player_wf(p: PlayerStats) -> bool {
    p.health <= p.max_health && 1 <= p.max_health
}

impl Default for PlayerStats {
    /// A fresh adventurer: 10 health, 1 damage, level 1.
    fn default() -> (r: PlayerStats)
        ensures
            r.health == 40,
            r.max_health == 40,
            r.level == 1,
            r.exp == 0,
            r.damages == 4,
            r.action == PlayerActions::Attack,
            r.last_action == PlayerActions::Attack,
            player_wf(r),
    {
        PlayerStats {
            health: 40,
            max_health: 40,
            level: 1,
            exp: 0,
            damages: 4,
            action: PlayerActions::Attack,
            last_action: PlayerActions::Attack,
        }
    }
}

impl PlayerStats {
    /// Back to the fresh adventurer (the last recorded action stays, as a
    /// new run overwrites it before reading it).
    pub fn reset(&mut self)
        ensures
            final(self).exp == 0,
            final(self).level == 1,
            final(self).damages == 4,
            final(self).max_health == 40,
            final(self).health == 40,
            final(self).action == PlayerActions::Attack,
            final(self).last_action == old(self).last_action,
            player_wf(*final(self)),
    {
        self.exp = 0;
        self.level = 1;
        self.damages = 4;
        self.max_health = 40;
        self.health = self.max_health;
        self.action = PlayerActions::Attack;
    }
}

/// The kinds of room a turn can land in.
#[derive(Debug, Clone, Copy, PartialEq, Eq, Structural)]
pub enum RoomType {
    Corridor,
    Enemy,
    Item,
    Npc,
}

/// Which ways lead on from a corridor.
#[derive(Debug, Clone, Copy, PartialEq, Eq, Structural)]
pub enum Directions {
    All,
    LeftFront,
    Left,
    RightFront,
    Right,
    Front,
}

/// A direction the player may ask to move in.
#[derive(Debug, Clone, Copy, PartialEq, Eq, Structural)]
pub enum Movement {
    Forward,
    Left,
    Right,
}

/// The movement a (case-folded) word names, if any.
pub open spec fn spec_movement_from(s: Seq<char>) -> Option<Movement> {
    if spec_lower(s) == "forward"@ {
        Some(Movement::Forward)
    } else if spec_lower(s) == "left"@ {
        Some(Movement::Left)
    } else if spec_lower(s) == "right"@ {
        Some(Movement::Right)
    } else {
        None
    }
}

impl Movement {
    /// Parses a direction word, case-insensitively.
    pub fn from_string(dir: &str) -> (r: Option<Movement>)
        ensures
            r == spec_movement_from(dir@),
    {
        if eq_lower(dir, "forward") {
            Some(Movement::Forward)
        } else if eq_lower(dir, "left") {
            Some(Movement::Left)
        } else if eq_lower(dir, "right") {
            Some(Movement::Right)
        } else {
            None
        }
    }
}

/// The view art of each corridor layout.
pub open spec fn spec_directions_art(d: Directions) -> Seq<char> {
    match d {
        Directions::All => laby_art::ALL_DIRECTIONS@,
        Directions::LeftFront => laby_art::LEFT_FRONT@,
        Directions::Left => laby_art::LEFT@,
        Directions::RightFront => laby_art::RIGHT_FRONT@,
        Directions::Right => laby_art::RIGHT@,
        Directions::Front => laby_art::FRONT@,
    }
}

/// The wording of each corridor layout.
pub open spec fn spec_directions_display(d: Directions) -> Seq<char> {
    match d {
        Directions::All => "Forward, Left, Right"@,
        Directions::LeftFront => "Forward, Left"@,
        Directions::Left => "Left"@,
        Directions::RightFront => "Forward, Right"@,
        Directions::Right => "Right"@,
        Directions::Front => "Forward"@,
    }
}

/// Which movements a corridor layout allows.
pub open spec fn spec_can_go(d: Directions, mov: Movement) -> bool {
    match mov {
        Movement::Forward => d == Directions::All || d == Directions::LeftFront || d
            == Directions::RightFront || d == Directions::Front,
        Movement::Left => d == Directions::All || d == Directions::LeftFront || d
            == Directions::Left,
        Movement::Right => d == Directions::All || d == Directions::RightFront || d
            == Directions::Right,
    }
}

impl Directions {
    /// The ASCII art of this layout.
    pub fn get_ascii_art(&self) -> (r: &'static str)
        ensures
            r@ == spec_directions_art(*self),
    {
        match self {
            Directions::All => laby_art::ALL_DIRECTIONS,
            Directions::LeftFront => laby_art::LEFT_FRONT,
            Directions::Left => laby_art::LEFT,
            Directions::RightFront => laby_art::RIGHT_FRONT,
            Directions::Right => laby_art::RIGHT,
            Directions::Front => laby_art::FRONT,
        }
    }

    /// The layout a draw maps to.
    pub fn from_index(index: u32) -> (r: Directions)
        ensures
            index == 0 ==> r == Directions::All,
            index == 1 ==> r == Directions::LeftFront,
            index == 2 ==> r == Directions::Left,
            index == 3 ==> r == Directions::RightFront,
            index == 4 ==> r == Directions::Right,
            index >= 5 ==> r == Directions::Front,
    {
        if index == 0 {
            Directions::All
        } else if index == 1 {
            Directions::LeftFront
        } else if index == 2 {
            Directions::Left
        } else if index == 3 {
            Directions::RightFront
        } else if index == 4 {
            Directions::Right
        } else {
            Directions::Front
        }
    }

    /// A uniform draw over the six layouts.
    pub fn get_random_direction(rng: &mut GameRng) -> Directions {
        let index = rng.below(6);
        Directions::from_index(index)
    }

    /// The wording of this layout.
    pub fn to_display(&self) -> (r: String)
        ensures
            r@ == spec_directions_display(*self),
    {
        match self {
            Directions::All => String::from_str("Forward, Left, Right"),
            Directions::LeftFront => String::from_str("Forward, Left"),
            Directions::Left => String::from_str("Left"),
            Directions::RightFront => String::from_str("Forward, Right"),
            Directions::Right => String::from_str("Right"),
            Directions::Front => String::from_str("Forward"),
        }
    }

    /// Whether this layout allows the movement.
    pub fn can_go_direction(&self, mov: Movement) -> (r: bool)
        ensures
            r == spec_can_go(*self, mov),
    {
        if *self == Directions::All {
            return true;
        }
        match mov {
            Movement::Forward => *self == Directions::LeftFront || *self == Directions::RightFront
                || *self == Directions::Front,
            Movement::Left => *self == Directions::LeftFront || *self == Directions::Left,
            Movement::Right => *self == Directions::RightFront || *self == Directions::Right,
        }
    }
}

/// The labyrinth's mutable session state.
pub struct LabyrinthData {
    pub steps_number: u32,
    pub room_type: RoomType,
    pub enemy: Enemy,
    pub npc: NPCData,
    pub seen_npcs: Vec<String>,
    pub item_type: ItemType,
    pub next_directions: Directions,
    pub has_shown_turn_infos: bool,
    pub wait_for_continue: bool,
    pub game_state: GameState,
    pub description: String,
    pub status_message: String,
    pub tutorial_page: usize,
}

/// A labyrinth session at its defaults: the tutorial's first page, an empty
/// record, an empty corridor, and the placeholder rat as the opponent.
pub open spec fn fresh_laby_data(r: LabyrinthData) -> bool {
    &&& r.next_directions == Directions::All
    &&& r.game_state == GameState::Tutorial
    &&& !r.has_shown_turn_infos
    &&& r.steps_number == 0
    &&& r.room_type == RoomType::Corridor
    &&& !r.wait_for_continue
    &&& r.description@ == ""@
    &&& r.item_type == ItemType::Chest
    &&& r.status_message@ == ""@
    &&& r.npc.sprite_id == 0
    &&& r.npc.username@ == ""@
    &&& r.tutorial_page == 0
    &&& r.seen_npcs@.len() == 0
    &&& r.enemy.kind == crate::laby_enemies::EnemyType::Rat
    &&& r.enemy.description@ == "Rat description"@
    &&& r.enemy.health == 12
    &&& r.enemy.max_health == 12
    &&& r.enemy.exp == 5
    &&& r.enemy.damages == 2
    &&& enemy_wf(r.enemy)
}

impl Default for LabyrinthData {
    /// A fresh run, at the first tutorial page.
    fn default() -> (r: LabyrinthData)
        ensures
            fresh_laby_data(r),
    {
        LabyrinthData {
            next_directions: Directions::All,
            game_state: GameState::Tutorial,
            has_shown_turn_infos: false,
            steps_number: 0,
            room_type: RoomType::Corridor,
            wait_for_continue: false,
            description: String::from_str(""),
            enemy: Enemy::default(),
            item_type: ItemType::Chest,
            status_message: String::from_str(""),
            npc: NPCData { sprite_id: 0, username: String::from_str("") },
            tutorial_page: 0,
            seen_npcs: Vec::new(),
        }
    }
}

impl LabyrinthData {
    /// Puts the whole session back to its defaults: the tutorial's first
    /// page, the seen-NPC record emptied, the last status line and room
    /// payload discarded.
    pub fn reset(&mut self)
        ensures
            fresh_laby_data(*final(self)),
    {
        *self = LabyrinthData::default();
    }
}

/// Two enemy tables with the same content, template for template.
pub open spec fn enemies_eqv(a: Seq<Enemy>, b: Seq<Enemy>) -> bool {
    &&& a.len() == b.len()
    &&& forall|i: int| 0 <= i < a.len() ==> enemy_eqv(#[trigger] a[i], b[i])
}

/// The labyrinth's data tables: corridor descriptions, tutorial pages, and
/// enemy templates. The templates scale with the player's level; the pristine
/// table of load time is kept aside so a finished run can restore it.
pub struct LabyrinthResourceFile {
    pub descriptions: Vec<String>,
    pub tutorial: Vec<String>,
    pub enemies: Vec<Enemy>,
    /// The pristine enemy table of load time; read-only after construction.
    pub initial_enemies: Vec<Enemy>,
}

impl LabyrinthResourceFile {
    /// The pristine enemy table of load time.
    pub open spec fn spec_initial_enemies(&self) -> Seq<Enemy> {
        self.initial_enemies@
    }

    /// The tables a run relies on: nothing empty, tables addressable by the
    /// random draws, every template displayable, and the live enemy table as
    /// long as the pristine one.
    pub open spec fn wf(&self) -> bool {
        &&& 1 <= self.descriptions@.len() <= u32::MAX
        &&& 1 <= self.tutorial@.len() <= u32::MAX
        &&& 1 <= self.enemies@.len() <= u32::MAX
        &&& self.spec_initial_enemies().len() == self.enemies@.len()
        &&& forall|i: int| 0 <= i < self.enemies@.len() ==> enemy_wf(#[trigger] self.enemies@[i])
        &&& forall|i: int|
            0 <= i < self.spec_initial_enemies().len() ==> enemy_wf(
                #[trigger] self.spec_initial_enemies()[i],
            )
    }

    /// Packs validated tables; the caller (the loader) supplies them as plain
    /// values. Fails fast on an empty or oversized table: a packaging defect,
    /// not a runtime condition.
    pub fn new(descriptions: Vec<String>, tutorial: Vec<String>, enemies: Vec<Enemy>) -> (r:
        Result<LabyrinthResourceFile, ()>)
        ensures
            r is Ok <==> {
                &&& 1 <= descriptions@.len() <= u32::MAX
                &&& 1 <= tutorial@.len() <= u32::MAX
                &&& 1 <= enemies@.len() <= u32::MAX
                &&& forall|i: int| 0 <= i < enemies@.len() ==> enemy_wf(#[trigger] enemies@[i])
            },
            r is Ok ==> {
                &&& r.unwrap().wf()
                &&& r.unwrap().descriptions == descriptions
                &&& r.unwrap().tutorial == tutorial
                &&& r.unwrap().enemies == enemies
                &&& enemies_eqv(r.unwrap().spec_initial_enemies(), enemies@)
            },
    {
        if descriptions.len() == 0 || tutorial.len() == 0 || enemies.len() == 0 {
            return Err(());
        }
        if descriptions.len() > u32::MAX as usize || tutorial.len() > u32::MAX as usize
            || enemies.len() > u32::MAX as usize {
            return Err(());
        }
        let mut k: usize = 0;
        while k < enemies.len()
            invariant
                k <= enemies@.len(),
                forall|j: int| 0 <= j < k ==> enemy_wf(#[trigger] enemies@[j]),
            decreases enemies@.len() - k,
        {
            if enemies[k].health > enemies[k].max_health || enemies[k].max_health < 1 {
                return Err(());
            }
            k = k + 1;
        }
        let mut initial: Vec<Enemy> = Vec::new();
        let mut i: usize = 0;
        while i < enemies.len()
            invariant
                i <= enemies@.len(),
                initial@.len() == i,
                forall|j: int| 0 <= j < i ==> enemy_eqv(#[trigger] initial@[j], enemies@[j]),
            decreases enemies@.len() - i,
        {
            initial.push(enemies[i].duplicate());
            i = i + 1;
        }
        Ok(LabyrinthResourceFile { descriptions, tutorial, enemies, initial_enemies: initial })
    }

    /// Restores the enemy table to its load-time content (the descriptions
    /// and tutorial pages never change, so they stay).
    pub fn reset(&mut self)
        requires
            old(self).wf(),
        ensures
            final(self).wf(),
            enemies_eqv(final(self).enemies@, old(self).spec_initial_enemies()),
            final(self).descriptions == old(self).descriptions,
            final(self).tutorial == old(self).tutorial,
            final(self).spec_initial_enemies() == old(self).spec_initial_enemies(),
    {
        let mut fresh: Vec<Enemy> = Vec::new();
        let mut i: usize = 0;
        while i < self.initial_enemies.len()
            invariant
                i <= self.initial_enemies@.len(),
                fresh@.len() == i,
                *self == *old(self),
                forall|j: int|
                    0 <= j < i ==> enemy_eqv(#[trigger] fresh@[j], self.initial_enemies@[j]),
            decreases self.initial_enemies@.len() - i,
        {
            fresh.push(self.initial_enemies[i].duplicate());
            i = i + 1;
        }
        self.enemies = fresh;
    }
}

} // verus!
