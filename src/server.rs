//! The server's side: the mock card data, which handler a request path
//! goes to, and what is answered when no static file matches.

use vstd::prelude::*;

use crate::card::{CardData, CardModel};
use crate::decimal::{
    decimal_value, has_char, has_prefix, int_text, lemma_int_text_parses, parse_int, parses_as_i32,
    push_int_text,
    text_eq,
};

verus! {

/// How many cards the card list holds.
pub const CARD_LIST_LEN: i32 = 10;

pub const STATUS_OK: u16 = 200;

pub const STATUS_NOT_FOUND: u16 = 404;

pub const STATUS_SERVER_ERROR: u16 = 500;

pub open spec fn greeting() -> Seq<char> {
    "hello from server!"@
}

pub open spec fn lorem() -> Seq<char> {
    "Lorem ipsum dolor sit amet, consectetur adipiscing elit. Aliquam sapien neque, viverra ac augue sed, hendrerit tincidunt nunc. Etiam interdum mollis dolor. Cras vehicula dictum massa sit amet finibus. Duis id gravida urna, in ullamcorper libero. Mauris volutpat nisi id auctor tempor. Vivamus viverra nisi et sapien porttitor, nec auctor nisi pellentesque. Aliquam sed purus arcu. Ut eget ornare ex. Cras eu enim tellus. Aenean semper felis ac enim dictum mattis at quis risus. Curabitur vel leo a dolor tristique aliquet in in dolor."@
}

fn lorem_text() -> (r: &'static str)
    ensures
        r@ == lorem(),
{
    "Lorem ipsum dolor sit amet, consectetur adipiscing elit. Aliquam sapien neque, viverra ac augue sed, hendrerit tincidunt nunc. Etiam interdum mollis dolor. Cras vehicula dictum massa sit amet finibus. Duis id gravida urna, in ullamcorper libero. Mauris volutpat nisi id auctor tempor. Vivamus viverra nisi et sapien porttitor, nec auctor nisi pellentesque. Aliquam sed purus arcu. Ut eget ornare ex. Cras eu enim tellus. Aenean semper felis ac enim dictum mattis at quis risus. Curabitur vel leo a dolor tristique aliquet in in dolor."
}

/// The plain-text greeting of the server.
pub fn hello() -> (r: String)
    ensures
        r@ == greeting(),
{
    String::from_str("hello from server!")
}

/// The name that the server gives card `id`.
pub open spec fn card_name(id: int) -> Seq<char> {
    "Card "@ + int_text(id)
}

fn card_name_text(id: i32) -> (r: String)
    ensures
        r@ == card_name(id as int),
{
    let mut name = String::from_str("Card ");
    push_int_text(id, &mut name);
    name
}

/// The card that the server answers for any requested id.
pub open spec fn served_card(id: int) -> CardModel {
    CardModel { id, name: card_name(id), description: lorem() }
}

/// Card `k` of the card list: the first has the long text, the others a
/// numbered description.
pub open spec fn listed_card(k: int) -> CardModel {
    CardModel {
        id: k,
        name: card_name(k),
        description: if k == 1 {
            lorem()
        } else {
            "Description "@ + int_text(k)
        },
    }
}

/// The answer to a request for the card list.
pub struct CardListData {
    pub cards: Vec<CardData>,
}

/// The card with the requested id; its name is built from the id.
pub fn get_card(id: i32) -> (r: CardData)
    ensures
        r@ == served_card(id as int),
        r.id == id,
{
    CardData::new(id, card_name_text(id), String::from_str(lorem_text()))
}

/// The fixed card list: ids 1 to `CARD_LIST_LEN` in increasing order.
pub fn get_cards() -> (r: CardListData)
    ensures
        r.cards@.len() == CARD_LIST_LEN,
        forall|i: int| 0 <= i < r.cards@.len() ==> (#[trigger] r.cards@[i]).id == i + 1,
        forall|i: int| 0 <= i < r.cards@.len() ==> (#[trigger] r.cards@[i])@ == listed_card(i + 1),
{
    let mut cards: Vec<CardData> = Vec::new();
    let mut k: i32 = 1;
    while k <= CARD_LIST_LEN
        invariant
            1 <= k <= CARD_LIST_LEN + 1,
            cards@.len() == k - 1,
            forall|i: int| 0 <= i < cards@.len() ==> (#[trigger] cards@[i]).id == i + 1,
            forall|i: int| 0 <= i < cards@.len() ==> (#[trigger] cards@[i])@ == listed_card(i + 1),
        decreases CARD_LIST_LEN + 1 - k,
    {
        let description = if k == 1 {
            String::from_str(lorem_text())
        } else {
            let mut d = String::from_str("Description ");
            push_int_text(k, &mut d);
            d
        };
        cards.push(CardData::new(k, card_name_text(k), description));
        k += 1;
    }
    CardListData { cards }
}

/// Where a GET request goes. Paths are compared without their query.
pub enum ApiRoute {
    /// `/api/hello`
    Hello,
    /// `/api/cards`
    Cards,
    /// `/api/card/{id}` with an id in signed decimal that fits in 32 bits
    /// (leading zeros and a '+' allowed).
    Card(i32),
    /// `/api/card/{segment}` where the segment is no such id: the request is
    /// refused as malformed.
    BadCardId,
    /// Anything else: a static file, or the application shell.
    Static,
}

pub open spec fn card_prefix() -> Seq<char> {
    "/api/card/"@
}

pub open spec fn api_route(path: Seq<char>) -> ApiRoute {
    if path == "/api/hello"@ {
        ApiRoute::Hello
    } else if path == "/api/cards"@ {
        ApiRoute::Cards
    } else if card_prefix().is_prefix_of(path) {
        let rest = path.subrange(card_prefix().len() as int, path.len() as int);
        if parses_as_i32(rest) {
            ApiRoute::Card(decimal_value(rest) as i32)
        } else if rest.len() > 0 && !rest.contains('/') {
            ApiRoute::BadCardId
        } else {
            ApiRoute::Static
        }
    } else {
        ApiRoute::Static
    }
}

/// Picks the handler for a request path.
pub fn route_api(path: &str) -> (r: ApiRoute)
    ensures
        r == api_route(path@),
{
    if text_eq(path, "/api/hello") {
        return ApiRoute::Hello;
    }
    if text_eq(path, "/api/cards") {
        return ApiRoute::Cards;
    }
    let prefix = "/api/card/";
    if !has_prefix(path, prefix) {
        return ApiRoute::Static;
    }
    proof {
        reveal_strlit("/api/card/");
    }
    let n = path.unicode_len();
    let rest = path.substring_char(10, n);
    match parse_int(rest) {
        Some(v) => ApiRoute::Card(v),
        None => {
            if n > 10 && !has_char(rest, '/') {
                ApiRoute::BadCardId
            } else {
                ApiRoute::Static
            }
        },
    }
}

/// A status and a plain-text body.
pub struct Reply {
    pub status: u16,
    pub body: String,
}

pub struct ReplyModel {
    pub status: u16,
    pub body: Seq<char>,
}

impl View for Reply {
    type V = ReplyModel;

    open spec fn view(&self) -> ReplyModel {
        ReplyModel { status: self.status, body: self.body@ }
    }
}

/// What to do with the static file service's answer.
pub enum FallbackAction {
    /// Send the static service's answer as it is.
    PassThrough,
    /// No such file: read the application shell, `index.html`.
    ReadIndex,
    /// The static service failed: send this reply.
    Fail(Reply),
}

pub enum FallbackModel {
    PassThrough,
    ReadIndex,
    Fail(ReplyModel),
}

impl View for FallbackAction {
    type V = FallbackModel;

    open spec fn view(&self) -> FallbackModel {
        match self {
            FallbackAction::PassThrough => FallbackModel::PassThrough,
            FallbackAction::ReadIndex => FallbackModel::ReadIndex,
            FallbackAction::Fail(r) => FallbackModel::Fail(r@),
        }
    }
}

/// `lookup` is the status the static file service answered with, or its
/// error's text.
pub open spec fn fallback_action(lookup: Result<u16, Seq<char>>) -> FallbackModel {
    match lookup {
        Ok(status) => if status == STATUS_NOT_FOUND {
            FallbackModel::ReadIndex
        } else {
            FallbackModel::PassThrough
        },
        Err(e) => FallbackModel::Fail(
            ReplyModel { status: STATUS_SERVER_ERROR, body: "error: "@ + e },
        ),
    }
}

pub open spec fn lookup_view(lookup: Result<u16, String>) -> Result<u16, Seq<char>> {
    match lookup {
        Ok(s) => Ok(s),
        Err(e) => Err(e@),
    }
}

/// Decides on the static file service's answer.
pub fn decide_fallback(lookup: Result<u16, String>) -> (r: FallbackAction)
    ensures
        r@ == fallback_action(lookup_view(lookup)),
{
    match lookup {
        Ok(status) => if status == STATUS_NOT_FOUND {
            FallbackAction::ReadIndex
        } else {
            FallbackAction::PassThrough
        },
        Err(e) => {
            let mut body = String::from_str("error: ");
            body.append(e.as_str());
            FallbackAction::Fail(Reply { status: STATUS_SERVER_ERROR, body })
        },
    }
}

/// `read` is the content of `index.html`, or the read error's text.
pub open spec fn index_reply(read: Result<Seq<char>, Seq<char>>) -> ReplyModel {
    match read {
        Ok(content) => ReplyModel { status: STATUS_OK, body: content },
        Err(_) => ReplyModel { status: STATUS_SERVER_ERROR, body: "index not found"@ },
    }
}

/// The reply built from reading the application shell.
pub fn reply_from_index(read: Result<String, String>) -> (r: Reply)
    ensures
        r@ == index_reply(
            match read {
                Ok(c) => Ok(c@),
                Err(e) => Err(e@),
            },
        ),
{
    match read {
        Ok(content) => Reply { status: STATUS_OK, body: content },
        Err(_) => Reply { status: STATUS_SERVER_ERROR, body: String::from_str("index not found") },
    }
}

/// A path that is no file under the static root is answered with the
/// application shell and status 200, not with 404.
pub proof fn lemma_missing_file_serves_index(content: Seq<char>)
    ensures
        fallback_action(Ok(STATUS_NOT_FOUND)) == FallbackModel::ReadIndex,
        index_reply(Ok(content)) == (ReplyModel { status: STATUS_OK, body: content }),
{
}

/// The path of the API request for card `id`.
pub fn card_api_path(id: i32) -> (r: String)
    ensures
        r@ == card_prefix() + int_text(id as int),
{
    let mut p = String::from_str("/api/card/");
    push_int_text(id, &mut p);
    p
}

/// Every valid card id is echoed in the card that the server answers, and
/// the path that the client builds for it is routed to that card.
pub proof fn lemma_card_route_echoes_id(id: i32)
    ensures
        api_route(card_prefix() + int_text(id as int)) == ApiRoute::Card(id),
        served_card(id as int).id == id,
{
    let path = card_prefix() + int_text(id as int);
    let rest = path.subrange(card_prefix().len() as int, path.len() as int);
    assert(rest =~= int_text(id as int));
    assert(card_prefix().is_prefix_of(path)) by {
        assert(path.subrange(0, card_prefix().len() as int) =~= card_prefix());
    }
    lemma_int_text_parses(id);
    reveal_strlit("/api/card/");
    reveal_strlit("/api/hello");
    reveal_strlit("/api/cards");
    assert(path[9] == '/');
}

} // verus!
