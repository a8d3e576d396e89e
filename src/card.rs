//! A single card.

use vstd::prelude::*;

use crate::decimal::{int_text, push_int_text};
use crate::view::{CardFace, FaceModel, Page, PageModel, Renderable};

verus! {

/// The width of a rendered card, in em. Every layout length that depends on
/// the size of a card is derived from it.
pub const CARD_EM_WIDTH: u32 = 10;

/// A card: an id given by the server (-1 for the loading placeholder), a
/// name and a description.
pub struct CardData {
    pub id: i32,
    pub name: String,
    pub description: String,
}

pub struct CardModel {
    pub id: int,
    pub name: Seq<char>,
    pub description: Seq<char>,
}

impl View for CardData {
    type V = CardModel;

    open spec fn view(&self) -> CardModel {
        CardModel { id: self.id as int, name: self.name@, description: self.description@ }
    }
}

/// The card shown while the real one is on its way.
pub open spec fn placeholder_card() -> CardModel {
    CardModel {
        id: -1,
        name: "Loading..."@,
        description: "This is a template for a loading card"@,
    }
}

/// How a card is drawn: its name on top, its description below, "#id" at
/// the foot, at the shared card width.
pub open spec fn face_of(c: CardModel) -> FaceModel {
    FaceModel {
        title: c.name,
        body: c.description,
        footer: seq!['#'] + int_text(c.id),
        width_em: CARD_EM_WIDTH as nat,
    }
}

impl CardData {
    pub fn new(id: i32, name: String, description: String) -> (r: CardData)
        ensures
            r@ == (CardModel { id: id as int, name: name@, description: description@ }),
    {
        CardData { id, name, description }
    }

    pub fn get_id(&self) -> (r: i32)
        ensures
            r == self.id,
    {
        self.id
    }

    pub fn get_name(&self) -> (r: &String)
        ensures
            r@ == self.name@,
    {
        &self.name
    }

    pub fn get_description(&self) -> (r: &String)
        ensures
            r@ == self.description@,
    {
        &self.description
    }

    pub fn card_em_width() -> (r: u32)
        ensures
            r == CARD_EM_WIDTH,
    {
        CARD_EM_WIDTH
    }

    /// The face that `render` shows.
    pub fn face(&self) -> (r: CardFace)
        ensures
            r@ == face_of(self@),
    {
        let mut footer = String::from_str("#");
        proof {
            reveal_strlit("#");
        }
        push_int_text(self.id, &mut footer);
        assert(footer@ =~= seq!['#'] + int_text(self.id as int));
        CardFace {
            title: self.name.clone(),
            body: self.description.clone(),
            footer,
            width_em: CardData::card_em_width(),
        }
    }
}

impl Default for CardData {
    fn default() -> (r: CardData)
        ensures
            r@ == placeholder_card(),
    {
        proof {
            reveal_strlit("Loading...");
            reveal_strlit("This is a template for a loading card");
        }
        CardData {
            id: -1,
            name: String::from_str("Loading..."),
            description: String::from_str("This is a template for a loading card"),
        }
    }
}

impl Renderable for CardData {
    open spec fn rendered(&self) -> PageModel {
        PageModel::Card(face_of(self@))
    }

    fn render(&self) -> (r: Page) {
        Page::Card(self.face())
    }
}

/// Rendering is a function of the card's value: rendering two equal cards
/// gives equal pages.
pub proof fn lemma_card_render_deterministic(a: CardData, b: CardData)
    requires
        a@ == b@,
    ensures
        a.rendered() == b.rendered(),
{
}

} // verus!
