//! The view model that rendering produces: plain values that a UI layer
//! turns into elements and styles.

use vstd::prelude::*;

use crate::decimal::nat_text;

verus! {

/// One rendered card: its heading, its scrollable body, its footer and its
/// width in em.
pub struct CardFace {
    pub title: String,
    pub body: String,
    pub footer: String,
    pub width_em: u32,
}

pub struct FaceModel {
    pub title: Seq<char>,
    pub body: Seq<char>,
    pub footer: Seq<char>,
    pub width_em: nat,
}

impl View for CardFace {
    type V = FaceModel;

    open spec fn view(&self) -> FaceModel {
        FaceModel {
            title: self.title@,
            body: self.body@,
            footer: self.footer@,
            width_em: self.width_em as nat,
        }
    }
}

/// A centred row of cards, shifted left by `shift_em` em so that it stays
/// centred under the overlap of its items.
pub struct HandView {
    pub shift_em: String,
    pub faces: Vec<CardFace>,
}

/// What a page shows.
pub enum Page {
    /// A line of text: a greeting, a placeholder or an error.
    Message(String),
    Card(CardFace),
    Hand(HandView),
}

pub enum PageModel {
    Message(Seq<char>),
    Card(FaceModel),
    Hand(Seq<char>, Seq<FaceModel>),
}

pub open spec fn faces_view(faces: Seq<CardFace>) -> Seq<FaceModel> {
    faces.map_values(|f: CardFace| f@)
}

impl View for Page {
    type V = PageModel;

    open spec fn view(&self) -> PageModel {
        match self {
            Page::Message(m) => PageModel::Message(m@),
            Page::Card(f) => PageModel::Card(f@),
            Page::Hand(h) => PageModel::Hand(h.shift_em@, faces_view(h.faces@)),
        }
    }
}

/// A value that renders to a page; the result depends on the value alone.
pub trait Renderable {
    spec fn rendered(&self) -> PageModel;

    fn render(&self) -> (r: Page)
        ensures
            r@ == self.rendered(),
    ;
}

/// Half of `w`, written in decimal: "5" for 10, "5.5" for 11.
pub open spec fn half_text(w: nat) -> Seq<char> {
    if w % 2 == 0 {
        nat_text(w / 2)
    } else {
        nat_text(w / 2) + seq!['.', '5']
    }
}

/// Half of a width in em, as text.
pub fn half_width_text(w: u32) -> (r: String)
    ensures
        r@ == half_text(w as nat),
{
    let mut out = String::new();
    crate::decimal::push_nat_text((w / 2) as u64, &mut out);
    if w % 2 == 1 {
        out.append(".5");
        proof {
            reveal_strlit(".5");
        }
    }
    assert(out@ =~= half_text(w as nat));
    out
}

} // verus!
