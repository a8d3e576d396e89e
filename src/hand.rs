//! A hand: an ordered row of cards.

use vstd::prelude::*;

use crate::card::{face_of, CardData, CardModel, CARD_EM_WIDTH};
use crate::view::{faces_view, half_text, half_width_text, CardFace, HandView, Page, PageModel, Renderable};

verus! {

/// Cards in display order, left to right.
pub struct HandData {
    pub cards: Vec<CardData>,
}

pub open spec fn cards_view(cards: Seq<CardData>) -> Seq<CardModel> {
    cards.map_values(|c: CardData| c@)
}

impl View for HandData {
    type V = Seq<CardModel>;

    open spec fn view(&self) -> Seq<CardModel> {
        cards_view(self.cards@)
    }
}

/// How a hand is drawn: a row shifted left by half a card width, holding
/// the face of each card in order.
pub open spec fn hand_page(h: Seq<CardModel>) -> PageModel {
    PageModel::Hand(half_text(CARD_EM_WIDTH as nat), h.map_values(|c: CardModel| face_of(c)))
}

impl HandData {
    pub fn new(cards: Vec<CardData>) -> (r: HandData)
        ensures
            r@ == cards_view(cards@),
    {
        HandData { cards }
    }

    pub fn get_cards(&self) -> (r: &Vec<CardData>)
        ensures
            r@ == self.cards@,
    {
        &self.cards
    }
}

impl Renderable for HandData {
    open spec fn rendered(&self) -> PageModel {
        hand_page(self@)
    }

    fn render(&self) -> (r: Page) {
        let mut faces: Vec<CardFace> = Vec::new();
        let n = self.cards.len();
        let mut i: usize = 0;
        while i < n
            invariant
                n == self.cards@.len(),
                i <= n,
                faces@.len() == i,
                forall|j: int| 0 <= j < i ==> (#[trigger] faces@[j])@ == face_of(self.cards@[j]@),
            decreases n - i,
        {
            faces.push(self.cards[i].face());
            i += 1;
        }
        let shift_em = half_width_text(CardData::card_em_width());
        assert(faces_view(faces@) =~= self@.map_values(|c: CardModel| face_of(c)));
        Page::Hand(HandView { shift_em, faces })
    }
}

/// Rendering is a function of the hand's value: rendering two equal hands
/// gives equal pages.
pub proof fn lemma_hand_render_deterministic(a: HandData, b: HandData)
    requires
        a@ == b@,
    ensures
        a.rendered() == b.rendered(),
{
}

} // verus!
