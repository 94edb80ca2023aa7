use nexmark_events::auction::PyAuction;
use nexmark_events::bid::PyBid;
use nexmark_events::event::HostValue;
use nexmark_events::event::PyEvent;
use nexmark_events::event::PyEventEnum;
use nexmark_events::json::JsonObject;
use nexmark_events::mapping::FieldValue;
use nexmark_events::person::PyPerson;

const TYPE_ERROR: &str = "value is not a Person, Auction, Bid, or matching JSON";

const PERSON_JSON: &str = "{\"id\":1,\"name\":\"n\",\"email_address\":\"e\",\"credit_card\":\"k\",\
    \"city\":\"c\",\"state\":\"s\",\"date_time\":2,\"extra\":\"x\"}";

const AUCTION_JSON: &str = "{\"id\":3,\"item_name\":\"i\",\"description\":\"d\",\"initial_bid\":4,\
    \"reserve\":5,\"date_time\":6,\"expires\":7,\"seller\":8,\"category\":9,\"extra\":\"x\"}";

const BID_JSON: &str =
    "{\"auction\":1,\"bidder\":2,\"price\":100,\"date_time\":0,\"channel\":\"c\",\"url\":\"u\",\"extra\":\"\"}";

const ALL_FIELDS_JSON: &str = "{\"auction\":1,\"bidder\":2,\"price\":100,\"channel\":\"c\",\"url\":\"u\",\
    \"id\":3,\"item_name\":\"i\",\"description\":\"d\",\"initial_bid\":4,\"reserve\":5,\"expires\":7,\
    \"seller\":8,\"category\":9,\"name\":\"n\",\"email_address\":\"e\",\"credit_card\":\"k\",\
    \"city\":\"c\",\"state\":\"s\",\"date_time\":2,\"extra\":\"x\"}";

const AUCTION_AND_BID_JSON: &str = "{\"auction\":1,\"bidder\":2,\"price\":100,\"channel\":\"c\",\
    \"url\":\"u\",\"id\":3,\"item_name\":\"i\",\"description\":\"d\",\"initial_bid\":4,\"reserve\":5,\
    \"expires\":7,\"seller\":8,\"category\":9,\"date_time\":2,\"extra\":\"x\"}";

fn person() -> PyPerson {
    PyPerson::new(
        1,
        "n".to_string(),
        "e".to_string(),
        "k".to_string(),
        "c".to_string(),
        "s".to_string(),
        2,
        "x".to_string(),
    )
}

fn auction() -> PyAuction {
    PyAuction::new(3, "i".to_string(), "d".to_string(), 4, 5, 6, 7, 8, 9, "x".to_string())
}

fn bid() -> PyBid {
    PyBid::new(1, 2, 100, 0, "c".to_string(), "u".to_string(), "".to_string())
}

fn kinds(event: &PyEvent) -> (bool, bool, bool) {
    (event.is_person(), event.is_auction(), event.is_bid())
}

#[test]
fn event_from_bid_json_is_a_bid() {
    let event = PyEvent::new(HostValue::Text(BID_JSON.to_string())).unwrap();
    assert_eq!(event.kind(), "bid");
    assert_eq!(event.get_bid().unwrap().price, 100);
    assert_eq!(kinds(&event), (false, false, true));
}

#[test]
fn event_wraps_a_typed_record() {
    let event = PyEvent::new(HostValue::Person(person())).unwrap();
    assert_eq!(event.kind(), "person");
    assert_eq!(event.get_person().unwrap().name, "n");
    let event = PyEvent::new(HostValue::Auction(auction())).unwrap();
    assert_eq!(event.kind(), "auction");
    assert_eq!(event.get_auction().unwrap().seller, 8);
    let event = PyEvent::new(HostValue::Bid(bid())).unwrap();
    assert_eq!(event.kind(), "bid");
    assert_eq!(event.get_bid().unwrap().bidder, 2);
}

#[test]
fn event_from_json_picks_the_schema_that_fits() {
    let event = PyEvent::new(HostValue::Text(PERSON_JSON.to_string())).unwrap();
    assert_eq!(event.kind(), "person");
    assert_eq!(event.get_person().unwrap().date_time, 2);
    let event = PyEvent::new(HostValue::Text(AUCTION_JSON.to_string())).unwrap();
    assert_eq!(event.kind(), "auction");
    assert_eq!(event.get_auction().unwrap().expires, 7);
}

#[test]
fn resolver_prefers_person_then_auction_then_bid() {
    let event = PyEvent::new(HostValue::Text(ALL_FIELDS_JSON.to_string())).unwrap();
    assert_eq!(event.kind(), "person");
    assert_eq!(event.get_person().unwrap().id, 3);
    let event = PyEvent::new(HostValue::Text(AUCTION_AND_BID_JSON.to_string())).unwrap();
    assert_eq!(event.kind(), "auction");
    assert_eq!(event.get_auction().unwrap().id, 3);
    let object = JsonObject::parse(AUCTION_AND_BID_JSON).unwrap();
    assert_eq!(PyEvent::from_object(&object).unwrap().kind(), "auction");
    assert_eq!(PyBid::from_object(&object).unwrap().price, 100);
}

#[test]
fn event_rejects_what_matches_no_record() {
    let texts = ["", "not json", "{}", "[1]", "{\"auction\":1,\"bidder\":2}", "\"person\""];
    for text in texts {
        let error = PyEvent::new(HostValue::Text(text.to_string())).unwrap_err();
        assert_eq!(error.message, TYPE_ERROR);
    }
    let error = PyEvent::new(HostValue::Other).unwrap_err();
    assert_eq!(error.message, TYPE_ERROR);
    let error = PyEvent::from_object(&JsonObject::new()).unwrap_err();
    assert_eq!(error.message, TYPE_ERROR);
}

#[test]
fn exactly_one_kind_holds() {
    let person = PyEvent { inner: PyEventEnum::Person(person()) };
    let auction = PyEvent { inner: PyEventEnum::Auction(auction()) };
    let bid = PyEvent { inner: PyEventEnum::Bid(bid()) };
    assert_eq!(kinds(&person), (true, false, false));
    assert_eq!(kinds(&auction), (false, true, false));
    assert_eq!(kinds(&bid), (false, false, true));
    assert_eq!(person.kind(), "person");
    assert_eq!(auction.kind(), "auction");
    assert_eq!(bid.kind(), "bid");
}

#[test]
fn wrong_accessor_returns_nothing() {
    let person = PyEvent { inner: PyEventEnum::Person(person()) };
    assert!(person.get_person().is_some());
    assert!(person.get_auction().is_none());
    assert!(person.get_bid().is_none());
    let auction = PyEvent { inner: PyEventEnum::Auction(auction()) };
    assert!(auction.get_person().is_none());
    assert!(auction.get_auction().is_some());
    assert!(auction.get_bid().is_none());
    let bid = PyEvent { inner: PyEventEnum::Bid(bid()) };
    assert!(bid.get_person().is_none());
    assert!(bid.get_auction().is_none());
    assert!(bid.get_bid().is_some());
}

#[test]
fn value_is_a_copy_of_the_payload() {
    let event = PyEvent { inner: PyEventEnum::Auction(auction()) };
    match event.value() {
        PyEventEnum::Auction(copy) => {
            assert_eq!(copy.id, 3);
            assert_eq!(copy.item_name, "i");
            assert_eq!(copy.category, 9);
        },
        other => panic!("{:?}", other),
    }
    assert_eq!(event.get_auction().unwrap().id, 3);
}

#[test]
fn event_projections_are_those_of_its_record() {
    let event = PyEvent { inner: PyEventEnum::Bid(bid()) };
    assert_eq!(event.__repr__(), "Bid(auction=1, bidder=2, price=100)");
    assert_eq!(event.to_json().unwrap(), BID_JSON);
    let entries = event.to_dict();
    assert_eq!(entries.len(), 7);
    assert_eq!(entries[2].key, "price");
    assert!(matches!(entries[2].value, FieldValue::Number(100)));
    let event = PyEvent { inner: PyEventEnum::Person(person()) };
    assert_eq!(event.__repr__(), "Person(id=1, name='n', email='e', city='c', state='s')");
    assert_eq!(event.to_json().unwrap(), PERSON_JSON);
    assert_eq!(event.to_dict().len(), 8);
    let event = PyEvent { inner: PyEventEnum::Auction(auction()) };
    assert_eq!(event.__repr__(), "Auction(id=3, item='i', initial_bid=4, seller=8)");
    assert_eq!(event.to_json().unwrap(), AUCTION_JSON);
    assert_eq!(event.to_dict().len(), 10);
}

#[test]
fn event_round_trips_through_json() {
    let event = PyEvent { inner: PyEventEnum::Auction(auction()) };
    let back = PyEvent::new(HostValue::Text(event.to_json().unwrap())).unwrap();
    assert_eq!(back.kind(), "auction");
    assert_eq!(back.to_json().unwrap(), AUCTION_JSON);
}

#[test]
fn generated_person_keeps_every_field() {
    let source = nexmark::event::Event::Person(nexmark::event::Person {
        id: 11,
        name: "a".to_string(),
        email_address: "b".to_string(),
        credit_card: "c".to_string(),
        city: "d".to_string(),
        state: "e".to_string(),
        date_time: 12,
        extra: "f".to_string(),
    });
    let person = PyEvent::from(source).get_person().unwrap();
    assert_eq!(person.id, 11);
    assert_eq!(person.name, "a");
    assert_eq!(person.email_address, "b");
    assert_eq!(person.credit_card, "c");
    assert_eq!(person.city, "d");
    assert_eq!(person.state, "e");
    assert_eq!(person.date_time, 12);
    assert_eq!(person.extra, "f");
}

#[test]
fn generated_auction_keeps_every_field() {
    let source = nexmark::event::Event::Auction(nexmark::event::Auction {
        id: 21,
        item_name: "a".to_string(),
        description: "b".to_string(),
        initial_bid: 22,
        reserve: 23,
        date_time: 24,
        expires: 25,
        seller: 26,
        category: 27,
        extra: "c".to_string(),
    });
    let auction = PyEvent::from(source).get_auction().unwrap();
    assert_eq!(auction.id, 21);
    assert_eq!(auction.item_name, "a");
    assert_eq!(auction.description, "b");
    assert_eq!(auction.initial_bid, 22);
    assert_eq!(auction.reserve, 23);
    assert_eq!(auction.date_time, 24);
    assert_eq!(auction.expires, 25);
    assert_eq!(auction.seller, 26);
    assert_eq!(auction.category, 27);
    assert_eq!(auction.extra, "c");
}

#[test]
fn generated_bid_keeps_every_field() {
    let source = nexmark::event::Event::Bid(nexmark::event::Bid {
        auction: 31,
        bidder: 32,
        price: 33,
        channel: "a".to_string(),
        url: "b".to_string(),
        date_time: 34,
        extra: "c".to_string(),
    });
    let bid = PyEvent::from(source).get_bid().unwrap();
    assert_eq!(bid.auction, 31);
    assert_eq!(bid.bidder, 32);
    assert_eq!(bid.price, 33);
    assert_eq!(bid.date_time, 34);
    assert_eq!(bid.channel, "a");
    assert_eq!(bid.url, "b");
    assert_eq!(bid.extra, "c");
}
