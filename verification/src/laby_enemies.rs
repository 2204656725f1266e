//! The labyrinth's enemies.
//!
//! Health and damage are held in quarter points so that the halving and
//! 2.5-fold combat multipliers stay exact integers.

use vstd::prelude::*;
use crate::laby_art;
use crate::rng::GameRng;

verus! {

#[derive(Debug, Clone, Copy, PartialEq, Eq, Structural)]
pub enum EnemyType {
    Rat,
    Bat,
    Boss,
}

impl EnemyType {
    /// The short name of this kind.
    pub fn _to_display_str(&self) -> (r: &'static str)
        ensures
            *self == EnemyType::Rat ==> r@ == "rat"@,
            *self == EnemyType::Bat ==> r@ == "bat"@,
            *self == EnemyType::Boss ==> r@ == "boss"@,
    {
        match self {
            EnemyType::Rat => "rat",
            EnemyType::Bat => "bat",
            EnemyType::Boss => "boss",
        }
    }
}

/// One enemy: a template of the data table, or the live opponent of the
/// current room. `health`, `max_health` and `damages` are quarter points;
/// `exp` is the flat reward for defeating it.
#[derive(Debug)]
pub struct Enemy {
    pub kind: EnemyType,
    pub description: String,
    pub health: u32,
    pub max_health: u32,
    pub exp: u32,
    pub damages: u32,
}

/// An enemy the engine can display: its health never passes a positive
/// maximum.
pub open spec fn enemy_wf(e: Enemy) -> bool {
    e.health <= e.max_health && 1 <= e.max_health
}

/// Two enemies with the same content.
pub open spec fn enemy_eqv(a: Enemy, b: Enemy) -> bool {
    &&& a.kind == b.kind
    &&& a.description@ == b.description@
    &&& a.health == b.health
    &&& a.max_health == b.max_health
    &&& a.exp == b.exp
    &&& a.damages == b.damages
}

/// The art each kind is drawn with.
pub open spec fn spec_enemy_art(kind: EnemyType) -> Seq<char> {
    match kind {
        EnemyType::Rat => laby_art::RAT@,
        EnemyType::Bat => laby_art::BAT@,
        EnemyType::Boss => laby_art::BOSS@,
    }
}

impl Enemy {
    /// The ASCII art of this enemy's kind.
    pub fn get_ascii_art(&self) -> (r: &'static str)
        ensures
            r@ == spec_enemy_art(self.kind),
    {
        match self.kind {
            EnemyType::Rat => laby_art::RAT,
            EnemyType::Bat => laby_art::BAT,
            EnemyType::Boss => laby_art::BOSS,
        }
    }

    /// A uniform pick from a non-empty template table.
    pub fn get_random_enemy<'a>(enemies: &'a Vec<Enemy>, rng: &mut GameRng) -> (r: &'a Enemy)
        requires
            1 <= enemies@.len() <= u32::MAX,
        ensures
            exists|i: int| 0 <= i < enemies@.len() && *r == enemies@[i],
    {
        let index = rng.below(enemies.len() as u32) as usize;
        &enemies[index]
    }

    /// A value-preserving copy.
    pub fn duplicate(&self) -> (r: Enemy)
        ensures
            enemy_eqv(r, *self),
    {
        Enemy {
            kind: self.kind,
            description: self.description.clone(),
            health: self.health,
            max_health: self.max_health,
            exp: self.exp,
            damages: self.damages,
        }
    }
}

impl Default for Enemy {
    /// The placeholder opponent a fresh run starts with: a rat of 3 health,
    /// half a point of damage and 5 experience.
    fn default() -> (r: Enemy)
        ensures
            r.kind == EnemyType::Rat,
            r.description@ == "Rat description"@,
            r.max_health == 12,
            r.health == 12,
            r.exp == 5,
            r.damages == 2,
    {
        Enemy {
            kind: EnemyType::Rat,
            description: String::from_str("Rat description"),
            max_health: 12,
            health: 12,
            exp: 5,
            damages: 2,
        }
    }
}

} // verus!
