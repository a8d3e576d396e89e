//! The client's pages and which one a location path shows.

use vstd::prelude::*;

use crate::decimal::{
    decimal_value, has_prefix, int_text, lemma_int_text_parses, parse_int, parses_as_i32,
    push_int_text, text_eq,
};

verus! {

#[derive(Clone, Copy, PartialEq, Eq, Debug, Structural)]
pub enum ClientRoute {
    /// `/`
    Home,
    /// `/hello-server`
    HelloServer,
    /// `/card/{id}` with an id in signed decimal that fits in 32 bits
    /// (leading zeros and a '+' allowed).
    Card(i32),
    /// `/cards`
    Cards,
    /// Any other path, a malformed card id included.
    NotFound,
}

pub open spec fn client_card_prefix() -> Seq<char> {
    "/card/"@
}

/// The path without one trailing '/', if it ends with one.
pub open spec fn strip_slash(path: Seq<char>) -> Seq<char> {
    if path.len() > 0 && path.last() == '/' {
        path.drop_last()
    } else {
        path
    }
}

/// Pages are matched after one trailing '/' is dropped, so `/cards/` shows
/// the cards and `/` the home page.
pub open spec fn client_route(path: Seq<char>) -> ClientRoute {
    let p = strip_slash(path);
    let rest = p.subrange(client_card_prefix().len() as int, p.len() as int);
    if p.len() == 0 {
        ClientRoute::Home
    } else if p == "/hello-server"@ {
        ClientRoute::HelloServer
    } else if p == "/cards"@ {
        ClientRoute::Cards
    } else if client_card_prefix().is_prefix_of(p) && parses_as_i32(rest) {
        ClientRoute::Card(decimal_value(rest) as i32)
    } else {
        ClientRoute::NotFound
    }
}

/// The page that a location path shows.
pub fn recognize(path: &str) -> (r: ClientRoute)
    ensures
        r == client_route(path@),
{
    let n = path.unicode_len();
    let p = if n > 0 && path.get_char(n - 1) == '/' {
        path.substring_char(0, n - 1)
    } else {
        path
    };
    assert(p@ =~= strip_slash(path@));
    let m = p.unicode_len();
    if m == 0 {
        return ClientRoute::Home;
    }
    if text_eq(p, "/hello-server") {
        return ClientRoute::HelloServer;
    }
    if text_eq(p, "/cards") {
        return ClientRoute::Cards;
    }
    if !has_prefix(p, "/card/") {
        return ClientRoute::NotFound;
    }
    proof {
        reveal_strlit("/card/");
    }
    let rest = p.substring_char(6, m);
    match parse_int(rest) {
        Some(v) => ClientRoute::Card(v),
        None => ClientRoute::NotFound,
    }
}

/// The path that shows a page; `recognize` reads it back as that page. The
/// not-found page has the path `/404`.
pub fn route_path(r: &ClientRoute) -> (p: String)
    ensures
        *r is NotFound ==> p@ == "/404"@,
        !(*r is NotFound) ==> client_route(p@) == *r,
{
    proof {
        reveal_strlit("/");
        reveal_strlit("/hello-server");
        reveal_strlit("/cards");
    }
    match r {
        ClientRoute::Home => {
            let p = String::from_str("/");
            assert(strip_slash(p@) =~= Seq::<char>::empty());
            p
        },
        ClientRoute::HelloServer => {
            let p = String::from_str("/hello-server");
            assert(strip_slash(p@) == p@);
            p
        },
        ClientRoute::Cards => {
            let p = String::from_str("/cards");
            assert(strip_slash(p@) == p@);
            p
        },
        ClientRoute::Card(id) => {
            let mut p = String::from_str("/card/");
            push_int_text(*id, &mut p);
            proof {
                reveal_strlit("/card/");
                lemma_int_text_parses(*id);
                crate::decimal::lemma_int_text_shape(*id);
                let t = int_text(*id as int);
                assert(p@ =~= client_card_prefix() + t);
                assert(0 <= crate::decimal::digit_value(t[t.len() - 1])) by {
                    if *id < 0 {
                        assert(t[t.len() - 1] == crate::decimal::magnitude_text(t)[t.len() - 2]);
                    }
                }
                assert(p@.last() == t[t.len() - 1]);
                assert(strip_slash(p@) == p@);
                let rest = p@.subrange(6, p@.len() as int);
                assert(rest =~= t);
                assert(p@.subrange(0, 6) =~= client_card_prefix());
                assert(p@[1] == 'c');
                assert(p@[5] == '/');
                assert(p@ != "/hello-server"@);
                assert(p@ != "/cards"@);
            }
            p
        },
        ClientRoute::NotFound => String::from_str("/404"),
    }
}

} // verus!
