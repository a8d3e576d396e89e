//! The life of one fetched value inside a mounted component: not asked for,
//! on its way, or arrived (as a value or as an error message); and the
//! decisions made on the server's answer.

use vstd::prelude::*;

use crate::card::{face_of, placeholder_card, CardData};
use crate::decimal::{nat_text, push_nat_text};
use crate::hand::{hand_page, HandData};
use crate::view::{Page, PageModel, Renderable};

verus! {

pub enum LoadState<T> {
    Unloaded,
    Loading,
    Loaded(Result<T, String>),
}

/// A render asks for a fetch only when nothing was asked for yet.
pub open spec fn needs_fetch<T>(s: LoadState<T>) -> bool {
    s is Unloaded
}

pub open spec fn after_render<T>(s: LoadState<T>) -> LoadState<T> {
    if s is Unloaded {
        LoadState::Loading
    } else {
        s
    }
}

/// A result is kept only by a component that is waiting for it.
pub open spec fn after_resolve<T>(s: LoadState<T>, result: Result<T, String>) -> LoadState<T> {
    if s is Loading {
        LoadState::Loaded(result)
    } else {
        s
    }
}

/// How many fetches `n` renders in a row start, from state `s`.
pub open spec fn fetches_over<T>(s: LoadState<T>, n: nat) -> nat
    decreases n,
{
    if n == 0 {
        0
    } else {
        (if needs_fetch(s) {
            1nat
        } else {
            0nat
        }) + fetches_over(after_render(s), (n - 1) as nat)
    }
}

impl<T> LoadState<T> {
    pub fn new() -> (r: LoadState<T>)
        ensures
            r is Unloaded,
    {
        LoadState::Unloaded
    }

    /// Called on every render; returns whether the caller must start the
    /// one fetch of this component now.
    pub fn on_render(&mut self) -> (fetch: bool)
        ensures
            fetch == needs_fetch(*old(self)),
            *final(self) == after_render(*old(self)),
    {
        match self {
            LoadState::Unloaded => {
                *self = LoadState::Loading;
                true
            },
            _ => false,
        }
    }

    /// Called when the fetch has finished, whatever its outcome.
    pub fn on_resolved(&mut self, result: Result<T, String>)
        ensures
            *final(self) == after_resolve(*old(self), result),
    {
        let waiting = match self {
            LoadState::Loading => true,
            _ => false,
        };
        if waiting {
            *self = LoadState::Loaded(result);
        }
    }
}

/// Once a fetch was asked for, renders ask for no other.
pub proof fn lemma_no_fetch_after_start<T>(s: LoadState<T>, n: nat)
    requires
        !(s is Unloaded),
    ensures
        fetches_over(s, n) == 0,
    decreases n,
{
    if n > 0 {
        lemma_no_fetch_after_start(after_render(s), (n - 1) as nat);
    }
}

/// From a fresh component, any positive number of renders before the
/// answer arrives starts exactly one fetch.
pub proof fn lemma_one_fetch_per_mount<T>(n: nat)
    requires
        n >= 1,
    ensures
        fetches_over(LoadState::<T>::Unloaded, n) == 1,
{
    lemma_no_fetch_after_start(LoadState::<T>::Loading, (n - 1) as nat);
}

/// HTTP statuses in 200..=299 are successes.
pub open spec fn is_success(status: u16) -> bool {
    200 <= status <= 299
}

pub open spec fn status_message(status: u16, status_text: Seq<char>) -> Seq<char> {
    "Error fetching data: "@ + nat_text(status as nat) + " ("@ + status_text + ")"@
}

pub open spec fn error_message(detail: Seq<char>) -> Seq<char> {
    "Error: "@ + detail
}

/// Whether `needle` occurs in `s` as a contiguous run.
pub open spec fn occurs_in(needle: Seq<char>, s: Seq<char>) -> bool {
    exists|i: int| 0 <= i && i + needle.len() <= s.len() && #[trigger] s.subrange(i, i + needle.len()) == needle
}

/// The answer's status decides whether its body is read: a success lets it
/// through, any other status becomes an error naming the status and its text.
pub fn check_status(status: u16, status_text: &str) -> (r: Result<(), String>)
    ensures
        r is Ok <==> is_success(status),
        r matches Err(m) ==> m@ == status_message(status, status_text@),
{
    if 200 <= status && status <= 299 {
        return Ok(());
    }
    let mut m = String::from_str("Error fetching data: ");
    push_nat_text(status as u64, &mut m);
    m.append(" (");
    m.append(status_text);
    m.append(")");
    proof {
        reveal_strlit("Error fetching data: ");
        reveal_strlit(" (");
        reveal_strlit(")");
    }
    assert(m@ =~= status_message(status, status_text@));
    Err(m)
}

/// The message for a fetch that failed without a status: the connection
/// failed, or the body could not be read as the expected value.
pub fn error_text(detail: &str) -> (r: String)
    ensures
        r@ == error_message(detail@),
{
    let mut m = String::from_str("Error: ");
    m.append(detail);
    proof {
        reveal_strlit("Error: ");
    }
    m
}

/// A failed status, handed to a component that waits, leaves it showing an
/// error whose text names the status number.
pub proof fn lemma_failed_status_is_reported<T>(
    s: LoadState<T>,
    status: u16,
    status_text: Seq<char>,
    m: String,
)
    requires
        s is Loading,
        !is_success(status),
        m@ == status_message(status, status_text),
    ensures
        after_resolve(s, Err(m)) == LoadState::<T>::Loaded(Err(m)),
        occurs_in(nat_text(status as nat), m@),
{
    reveal_strlit("Error fetching data: ");
    let k: int = "Error fetching data: "@.len() as int;
    let t = nat_text(status as nat);
    assert(m@.subrange(k, k + t.len() as int) =~= t);
}

pub open spec fn card_screen(s: LoadState<CardData>) -> PageModel {
    match s {
        LoadState::Loaded(Ok(c)) => PageModel::Card(face_of(c@)),
        LoadState::Loaded(Err(e)) => PageModel::Message(e@),
        _ => PageModel::Card(face_of(placeholder_card())),
    }
}

/// The card page: the placeholder card until the answer, then the card or
/// the error.
pub fn show_card(s: &LoadState<CardData>) -> (r: Page)
    ensures
        r@ == card_screen(*s),
{
    match s {
        LoadState::Loaded(Ok(c)) => c.render(),
        LoadState::Loaded(Err(e)) => Page::Message(e.clone()),
        _ => CardData::default().render(),
    }
}

pub open spec fn hand_screen(s: LoadState<HandData>) -> PageModel {
    match s {
        LoadState::Loaded(Ok(h)) => hand_page(h@),
        LoadState::Loaded(Err(e)) => PageModel::Message(e@),
        _ => PageModel::Message("No server response"@),
    }
}

/// The page of all cards: a notice until the answer, then the hand or the
/// error.
pub fn show_hand(s: &LoadState<HandData>) -> (r: Page)
    ensures
        r@ == hand_screen(*s),
{
    match s {
        LoadState::Loaded(Ok(h)) => h.render(),
        LoadState::Loaded(Err(e)) => Page::Message(e.clone()),
        _ => Page::Message(String::from_str("No server response")),
    }
}

pub open spec fn greeting_screen(s: LoadState<String>) -> PageModel {
    match s {
        LoadState::Loaded(Ok(t)) => PageModel::Message(t@),
        LoadState::Loaded(Err(e)) => PageModel::Message(e@),
        _ => PageModel::Message("No server response"@),
    }
}

/// The greeting page: a notice until the answer, then the server's text or
/// the error.
pub fn show_greeting(s: &LoadState<String>) -> (r: Page)
    ensures
        r@ == greeting_screen(*s),
{
    match s {
        LoadState::Loaded(Ok(t)) => Page::Message(t.clone()),
        LoadState::Loaded(Err(e)) => Page::Message(e.clone()),
        _ => Page::Message(String::from_str("No server response")),
    }
}

} // verus!
