use card_table::card::{CardData, CARD_EM_WIDTH};
use card_table::decimal::{int_to_text, parse_int};
use card_table::hand::HandData;
use card_table::load::{check_status, error_text, show_card, show_greeting, show_hand, LoadState};
use card_table::route::{recognize, route_path, ClientRoute};
use card_table::server::{
    card_api_path, decide_fallback, get_card, get_cards, hello, reply_from_index, route_api, ApiRoute,
    FallbackAction, CARD_LIST_LEN,
};
use card_table::view::{half_width_text, Page, Renderable};

fn card(id: i32, name: &str, description: &str) -> CardData {
    CardData::new(id, name.to_string(), description.to_string())
}

#[test]
fn card_request_echoes_id() {
    for id in [7, 1, 0, -5, i32::MAX, i32::MIN] {
        assert_eq!(get_card(id).get_id(), id);
        let path = card_api_path(id);
        assert_eq!(path, format!("/api/card/{}", id));
        assert!(matches!(route_api(&path), ApiRoute::Card(v) if v == id));
    }
}

#[test]
fn card_seven_scenario() {
    let c = get_card(7);
    assert_eq!(c.get_id(), 7);
    assert_eq!(c.get_name(), "Card 7");
    assert!(c.get_description().starts_with("Lorem ipsum dolor sit amet"));
    assert!(c.get_description().ends_with("aliquet in in dolor."));
}

#[test]
fn card_list_is_numbered_from_one() {
    let list = get_cards();
    assert_eq!(list.cards.len(), CARD_LIST_LEN as usize);
    assert_eq!(list.cards.len(), 10);
    for (i, c) in list.cards.iter().enumerate() {
        assert_eq!(c.get_id(), i as i32 + 1);
        assert_eq!(c.get_name(), &format!("Card {}", i + 1));
    }
    assert!(list.cards[0].get_description().starts_with("Lorem ipsum"));
    assert_eq!(list.cards[1].get_description(), "Description 2");
    assert_eq!(list.cards[9].get_description(), "Description 10");
}

#[test]
fn greeting_text() {
    assert_eq!(hello(), "hello from server!");
}

#[test]
fn api_routes() {
    assert!(matches!(route_api("/api/hello"), ApiRoute::Hello));
    assert!(matches!(route_api("/api/cards"), ApiRoute::Cards));
    assert!(matches!(route_api("/api/card/12"), ApiRoute::Card(12)));
    assert!(matches!(route_api("/api/card/abc"), ApiRoute::BadCardId));
    assert!(matches!(route_api("/api/card/007"), ApiRoute::Card(7)));
    assert!(matches!(route_api("/api/card/+7"), ApiRoute::Card(7)));
    assert!(matches!(route_api("/api/card/-0"), ApiRoute::Card(0)));
    assert!(matches!(route_api("/api/card/-"), ApiRoute::BadCardId));
    assert!(matches!(route_api("/api/card/+"), ApiRoute::BadCardId));
    assert!(matches!(route_api("/api/card/7a"), ApiRoute::BadCardId));
    assert!(matches!(route_api("/api/card/99999999999"), ApiRoute::BadCardId));
    assert!(matches!(route_api("/api/card/7/x"), ApiRoute::Static));
    assert!(matches!(route_api("/api/card/"), ApiRoute::Static));
    assert!(matches!(route_api("/nonexistent/path"), ApiRoute::Static));
    assert!(matches!(route_api("/"), ApiRoute::Static));
}

#[test]
fn missing_static_path_serves_index() {
    assert!(matches!(route_api("/nonexistent/path"), ApiRoute::Static));
    assert!(matches!(decide_fallback(Ok(404)), FallbackAction::ReadIndex));
    let index = "<html><body>app</body></html>".to_string();
    let reply = reply_from_index(Ok(index.clone()));
    assert_eq!(reply.status, 200);
    assert_eq!(reply.body, index);
}

#[test]
fn fallback_failures() {
    assert!(matches!(decide_fallback(Ok(200)), FallbackAction::PassThrough));
    assert!(matches!(decide_fallback(Ok(304)), FallbackAction::PassThrough));
    match decide_fallback(Err("disk gone".to_string())) {
        FallbackAction::Fail(r) => {
            assert_eq!(r.status, 500);
            assert_eq!(r.body, "error: disk gone");
        }
        _ => panic!("expected a failure reply"),
    }
    let reply = reply_from_index(Err("no such file".to_string()));
    assert_eq!(reply.status, 500);
    assert_eq!(reply.body, "index not found");
}

#[test]
fn one_fetch_per_mount() {
    let mut s: LoadState<CardData> = LoadState::new();
    let mut fetches = 0;
    for _ in 0..5 {
        if s.on_render() {
            fetches += 1;
        }
    }
    assert_eq!(fetches, 1);
    assert!(matches!(s, LoadState::Loading));
    s.on_resolved(Ok(get_card(3)));
    for _ in 0..3 {
        assert!(!s.on_render());
    }
    assert!(matches!(&s, LoadState::Loaded(Ok(c)) if c.get_id() == 3));
}

#[test]
fn result_without_waiting_is_dropped() {
    let mut s: LoadState<String> = LoadState::new();
    s.on_resolved(Ok("late".to_string()));
    assert!(matches!(s, LoadState::Unloaded));
}

#[test]
fn failed_status_reaches_error_state() {
    let mut s: LoadState<CardData> = LoadState::new();
    assert!(s.on_render());
    let outcome = check_status(503, "Service Unavailable");
    match outcome {
        Err(m) => {
            assert_eq!(m, "Error fetching data: 503 (Service Unavailable)");
            s.on_resolved(Err(m));
        }
        Ok(()) => panic!("503 is no success"),
    }
    match &s {
        LoadState::Loaded(Err(m)) => assert!(m.contains("503")),
        _ => panic!("expected an error state"),
    }
    assert!(matches!(show_card(&s), Page::Message(m) if m.contains("503")));
}

#[test]
fn success_statuses() {
    assert!(check_status(200, "OK").is_ok());
    assert!(check_status(299, "").is_ok());
    assert!(check_status(199, "x").is_err());
    assert!(check_status(404, "Not Found").is_err());
    assert_eq!(error_text("connection refused"), "Error: connection refused");
}

#[test]
fn card_pages_by_state() {
    let mut s: LoadState<CardData> = LoadState::new();
    match show_card(&s) {
        Page::Card(f) => {
            assert_eq!(f.title, "Loading...");
            assert_eq!(f.footer, "#-1");
        }
        _ => panic!("expected the placeholder card"),
    }
    s.on_render();
    s.on_resolved(Ok(card(42, "Dragon", "Breathes fire")));
    match show_card(&s) {
        Page::Card(f) => {
            assert_eq!(f.title, "Dragon");
            assert_eq!(f.body, "Breathes fire");
            assert_eq!(f.footer, "#42");
            assert_eq!(f.width_em, CARD_EM_WIDTH);
        }
        _ => panic!("expected the card"),
    }
}

#[test]
fn hand_and_greeting_pages_by_state() {
    let mut h: LoadState<HandData> = LoadState::new();
    assert!(matches!(show_hand(&h), Page::Message(m) if m == "No server response"));
    h.on_render();
    h.on_resolved(Ok(HandData::new(vec![card(1, "A", "a"), card(2, "B", "b")])));
    match show_hand(&h) {
        Page::Hand(v) => {
            assert_eq!(v.shift_em, "5");
            assert_eq!(v.faces.len(), 2);
            assert_eq!(v.faces[0].title, "A");
            assert_eq!(v.faces[1].footer, "#2");
        }
        _ => panic!("expected the hand"),
    }
    let mut g: LoadState<String> = LoadState::new();
    assert!(matches!(show_greeting(&g), Page::Message(m) if m == "No server response"));
    g.on_render();
    g.on_resolved(Ok(hello()));
    assert!(matches!(show_greeting(&g), Page::Message(m) if m == "hello from server!"));
}

#[test]
fn render_twice_gives_equal_pages() {
    let a = card(5, "Card 5", "Description 5");
    let b = card(5, "Card 5", "Description 5");
    match (a.render(), b.render()) {
        (Page::Card(x), Page::Card(y)) => {
            assert_eq!(x.title, y.title);
            assert_eq!(x.body, y.body);
            assert_eq!(x.footer, y.footer);
            assert_eq!(x.width_em, y.width_em);
        }
        _ => panic!("expected cards"),
    }
    let hand = HandData::new(vec![card(1, "A", "a")]);
    match (hand.render(), hand.render()) {
        (Page::Hand(x), Page::Hand(y)) => {
            assert_eq!(x.shift_em, y.shift_em);
            assert_eq!(x.faces.len(), y.faces.len());
            assert_eq!(x.faces[0].footer, y.faces[0].footer);
        }
        _ => panic!("expected hands"),
    }
}

#[test]
fn placeholder_card() {
    let c = CardData::default();
    assert_eq!(c.get_id(), -1);
    assert_eq!(c.get_name(), "Loading...");
    assert_eq!(c.get_description(), "This is a template for a loading card");
    assert_eq!(CardData::card_em_width(), 10);
}

#[test]
fn half_widths() {
    assert_eq!(half_width_text(10), "5");
    assert_eq!(half_width_text(11), "5.5");
    assert_eq!(half_width_text(0), "0");
    assert_eq!(half_width_text(1), "0.5");
}

#[test]
fn decimal_text() {
    assert_eq!(int_to_text(0), "0");
    assert_eq!(int_to_text(7), "7");
    assert_eq!(int_to_text(-42), "-42");
    assert_eq!(int_to_text(i32::MAX), "2147483647");
    assert_eq!(int_to_text(i32::MIN), "-2147483648");
}

#[test]
fn decimal_parse() {
    assert_eq!(parse_int("7"), Some(7));
    assert_eq!(parse_int("0"), Some(0));
    assert_eq!(parse_int("-15"), Some(-15));
    assert_eq!(parse_int("2147483647"), Some(i32::MAX));
    assert_eq!(parse_int("-2147483648"), Some(i32::MIN));
    assert_eq!(parse_int("2147483648"), None);
    assert_eq!(parse_int("-0"), Some(0));
    assert_eq!(parse_int("007"), Some(7));
    assert_eq!(parse_int("+7"), Some(7));
    assert_eq!(parse_int("-007"), Some(-7));
    assert_eq!(parse_int("000000000000002147483647"), Some(i32::MAX));
    assert_eq!(parse_int("-2147483649"), None);
    assert_eq!(parse_int("+-1"), None);
    assert_eq!(parse_int("-"), None);
    assert_eq!(parse_int("+"), None);
    assert_eq!(parse_int(""), None);
    assert_eq!(parse_int("12a"), None);
    assert_eq!(parse_int("123456789012"), None);
}

#[test]
fn client_routes() {
    assert!(matches!(recognize("/"), ClientRoute::Home));
    assert!(matches!(recognize("/hello-server"), ClientRoute::HelloServer));
    assert!(matches!(recognize("/cards"), ClientRoute::Cards));
    assert!(matches!(recognize("/card/12"), ClientRoute::Card(12)));
    assert!(matches!(recognize("/card/-3"), ClientRoute::Card(-3)));
    assert!(matches!(recognize("/card/x"), ClientRoute::NotFound));
    assert!(matches!(recognize("/card/007"), ClientRoute::Card(7)));
    assert!(matches!(recognize("/card/+7"), ClientRoute::Card(7)));
    assert!(matches!(recognize("/card/7/"), ClientRoute::Card(7)));
    assert!(matches!(recognize("/cards/"), ClientRoute::Cards));
    assert!(matches!(recognize("/hello-server/"), ClientRoute::HelloServer));
    assert!(matches!(recognize(""), ClientRoute::Home));
    assert!(matches!(recognize("/card/7//"), ClientRoute::NotFound));
    assert!(matches!(recognize("/card/"), ClientRoute::NotFound));
    assert!(matches!(recognize("/elsewhere"), ClientRoute::NotFound));
    for r in [ClientRoute::Home, ClientRoute::HelloServer, ClientRoute::Cards, ClientRoute::Card(77)] {
        let p = route_path(&r);
        match (recognize(&p), r) {
            (ClientRoute::Home, ClientRoute::Home)
            | (ClientRoute::HelloServer, ClientRoute::HelloServer)
            | (ClientRoute::Cards, ClientRoute::Cards) => {}
            (ClientRoute::Card(a), ClientRoute::Card(b)) => assert_eq!(a, b),
            _ => panic!("path does not read back"),
        }
    }
    assert_eq!(route_path(&ClientRoute::NotFound), "/404");
    assert_eq!(route_path(&ClientRoute::Card(77)), "/card/77");
}
