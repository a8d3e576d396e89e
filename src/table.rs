//! A table: the player's own hand and a summary of each other player.

use vstd::prelude::*;

use crate::card::CardData;
use crate::hand::HandData;

verus! {

/// Six equipment slots, each empty or holding one card.
pub struct EquipmentData {
    pub head: Option<CardData>,
    pub torso: Option<CardData>,
    pub legs: Option<CardData>,
    pub necklace: Option<CardData>,
    pub left_hand: Option<CardData>,
    pub right_hand: Option<CardData>,
}

/// What is shown of another player: who they are, how many cards they hold
/// and what they wear.
pub struct PlayerData {
    pub id: i32,
    pub name: String,
    pub nb_cards: i32,
    pub equipment: EquipmentData,
}

pub struct TableData {
    pub your_hand: HandData,
    pub players: Vec<PlayerData>,
}

} // verus!
