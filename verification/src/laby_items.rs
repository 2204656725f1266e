//! The lootable items of the labyrinth's item rooms.

use vstd::prelude::*;
use crate::laby_art;
use crate::rng::GameRng;

verus! {

#[derive(Debug, Clone, Copy, PartialEq, Eq, Structural)]
pub enum ItemType {
    Chest,
    Key,
    Sword,
}

/// The art each item is drawn with.
pub open spec fn spec_item_art(item: ItemType) -> Seq<char> {
    match item {
        ItemType::Chest => laby_art::CHEST@,
        ItemType::Key => laby_art::KEY@,
        ItemType::Sword => laby_art::SWORD@,
    }
}

impl ItemType {
    /// The ASCII art of this item.
    pub fn get_ascii_art(&self) -> (r: &'static str)
        ensures
            r@ == spec_item_art(*self),
    {
        match self {
            ItemType::Chest => laby_art::CHEST,
            ItemType::Key => laby_art::KEY,
            ItemType::Sword => laby_art::SWORD,
        }
    }

    /// The short name of this item.
    pub fn _to_display_str(&self) -> (r: &'static str)
        ensures
            *self == ItemType::Chest ==> r@ == "chest"@,
            *self == ItemType::Key ==> r@ == "key"@,
            *self == ItemType::Sword ==> r@ == "sword"@,
    {
        match self {
            ItemType::Chest => "chest",
            ItemType::Key => "key",
            ItemType::Sword => "sword",
        }
    }

    /// The item a draw maps to.
    pub fn from_index(index: u32) -> (r: ItemType)
        ensures
            index == 0 ==> r == ItemType::Chest,
            index == 1 ==> r == ItemType::Key,
            index >= 2 ==> r == ItemType::Sword,
    {
        if index == 0 {
            ItemType::Chest
        } else if index == 1 {
            ItemType::Key
        } else {
            ItemType::Sword
        }
    }

    /// A uniform draw over the item table.
    pub fn get_random_item(rng: &mut GameRng) -> ItemType {
        let index = rng.below(3);
        ItemType::from_index(index)
    }
}

} // verus!
