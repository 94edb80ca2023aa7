use nexmark_events::auction::PyAuction;
use nexmark_events::bid::PyBid;
use nexmark_events::error::DecodeError;
use nexmark_events::json::JsonObject;
use nexmark_events::mapping::Entry;
use nexmark_events::mapping::FieldValue;
use nexmark_events::person::PyPerson;

fn sample_person() -> PyPerson {
    PyPerson::new(
        1000,
        "vicky noris".to_string(),
        "yplkvgz@qbxfg.com".to_string(),
        "7878 5821 1864 2539".to_string(),
        "cheyenne".to_string(),
        "az".to_string(),
        1_700_000_000_000,
        "lwaiyhjh".to_string(),
    )
}

fn sample_auction() -> PyAuction {
    PyAuction::new(
        1001,
        "chair".to_string(),
        "a wooden chair".to_string(),
        250,
        900,
        1_700_000_000_010,
        1_700_000_100_000,
        1000,
        12,
        "zz".to_string(),
    )
}

fn sample_bid() -> PyBid {
    PyBid::new(1001, 1000, 300, 1_700_000_000_020, "Google".to_string(), "https://x.y/z".to_string(), "".to_string())
}

fn assert_same_person(a: &PyPerson, b: &PyPerson) {
    assert_eq!(a.id, b.id);
    assert_eq!(a.name, b.name);
    assert_eq!(a.email_address, b.email_address);
    assert_eq!(a.credit_card, b.credit_card);
    assert_eq!(a.city, b.city);
    assert_eq!(a.state, b.state);
    assert_eq!(a.date_time, b.date_time);
    assert_eq!(a.extra, b.extra);
}

fn assert_same_auction(a: &PyAuction, b: &PyAuction) {
    assert_eq!(a.id, b.id);
    assert_eq!(a.item_name, b.item_name);
    assert_eq!(a.description, b.description);
    assert_eq!(a.initial_bid, b.initial_bid);
    assert_eq!(a.reserve, b.reserve);
    assert_eq!(a.date_time, b.date_time);
    assert_eq!(a.expires, b.expires);
    assert_eq!(a.seller, b.seller);
    assert_eq!(a.category, b.category);
    assert_eq!(a.extra, b.extra);
}

fn assert_same_bid(a: &PyBid, b: &PyBid) {
    assert_eq!(a.auction, b.auction);
    assert_eq!(a.bidder, b.bidder);
    assert_eq!(a.price, b.price);
    assert_eq!(a.date_time, b.date_time);
    assert_eq!(a.channel, b.channel);
    assert_eq!(a.url, b.url);
    assert_eq!(a.extra, b.extra);
}

fn entry_pairs(entries: &[Entry]) -> Vec<(String, serde_json::Value)> {
    entries
        .iter()
        .map(|entry| {
            let value = match &entry.value {
                FieldValue::Number(number) => serde_json::Value::from(*number),
                FieldValue::Text(text) => serde_json::Value::from(text.as_str()),
            };
            (entry.key.clone(), value)
        })
        .collect()
}

fn object_pairs(text: &str) -> Vec<(String, serde_json::Value)> {
    let value: serde_json::Value = serde_json::from_str(text).unwrap();
    value.as_object().unwrap().iter().map(|(key, value)| (key.clone(), value.clone())).collect()
}

#[test]
fn person_new_keeps_every_field() {
    let person = sample_person();
    assert_eq!(person.id, 1000);
    assert_eq!(person.name, "vicky noris");
    assert_eq!(person.email_address, "yplkvgz@qbxfg.com");
    assert_eq!(person.credit_card, "7878 5821 1864 2539");
    assert_eq!(person.city, "cheyenne");
    assert_eq!(person.state, "az");
    assert_eq!(person.date_time, 1_700_000_000_000);
    assert_eq!(person.extra, "lwaiyhjh");
}

#[test]
fn auction_new_keeps_every_field() {
    let auction = sample_auction();
    assert_eq!(auction.id, 1001);
    assert_eq!(auction.item_name, "chair");
    assert_eq!(auction.description, "a wooden chair");
    assert_eq!(auction.initial_bid, 250);
    assert_eq!(auction.reserve, 900);
    assert_eq!(auction.date_time, 1_700_000_000_010);
    assert_eq!(auction.expires, 1_700_000_100_000);
    assert_eq!(auction.seller, 1000);
    assert_eq!(auction.category, 12);
    assert_eq!(auction.extra, "zz");
}

#[test]
fn bid_new_converts_the_signed_numbers() {
    let bid = sample_bid();
    assert_eq!(bid.auction, 1001);
    assert_eq!(bid.bidder, 1000);
    assert_eq!(bid.price, 300);
    assert_eq!(bid.date_time, 1_700_000_000_020);
    assert_eq!(bid.channel, "Google");
    assert_eq!(bid.url, "https://x.y/z");
    assert_eq!(bid.extra, "");
}

#[test]
fn clone_is_an_independent_copy() {
    let person = sample_person();
    let mut copy = person.clone();
    copy.name.push('!');
    assert_eq!(person.name, "vicky noris");
    assert_eq!(copy.name, "vicky noris!");
    assert_same_auction(&sample_auction().clone(), &sample_auction());
    assert_same_bid(&sample_bid().clone(), &sample_bid());
}

#[test]
fn person_json_text_is_exact() {
    let text = sample_person().to_json().unwrap();
    assert_eq!(
        text,
        "{\"id\":1000,\"name\":\"vicky noris\",\"email_address\":\"yplkvgz@qbxfg.com\",\
         \"credit_card\":\"7878 5821 1864 2539\",\"city\":\"cheyenne\",\"state\":\"az\",\
         \"date_time\":1700000000000,\"extra\":\"lwaiyhjh\"}"
    );
}

#[test]
fn auction_json_text_is_exact() {
    let text = sample_auction().to_json().unwrap();
    assert_eq!(
        text,
        "{\"id\":1001,\"item_name\":\"chair\",\"description\":\"a wooden chair\",\
         \"initial_bid\":250,\"reserve\":900,\"date_time\":1700000000010,\
         \"expires\":1700000100000,\"seller\":1000,\"category\":12,\"extra\":\"zz\"}"
    );
}

#[test]
fn bid_json_text_is_exact() {
    let text = sample_bid().to_json().unwrap();
    assert_eq!(
        text,
        "{\"auction\":1001,\"bidder\":1000,\"price\":300,\"date_time\":1700000000020,\
         \"channel\":\"Google\",\"url\":\"https://x.y/z\",\"extra\":\"\"}"
    );
}

#[test]
fn person_round_trips_through_json() {
    let person = sample_person();
    let back = PyPerson::from_json(&person.to_json().unwrap()).unwrap();
    assert_same_person(&back, &person);
}

#[test]
fn auction_round_trips_through_json() {
    let auction = sample_auction();
    let back = PyAuction::from_json(&auction.to_json().unwrap()).unwrap();
    assert_same_auction(&back, &auction);
}

#[test]
fn bid_round_trips_through_json() {
    let bid = sample_bid();
    let back = PyBid::from_json(&bid.to_json().unwrap()).unwrap();
    assert_same_bid(&back, &bid);
}

#[test]
fn round_trip_keeps_escapes_and_extremes() {
    let person = PyPerson::new(
        usize::MAX,
        "quote \" backslash \\ newline \n tab \t".to_string(),
        "\u{0}\u{1f}".to_string(),
        "caf\u{e9} \u{4e16}\u{754c} \u{1f600}".to_string(),
        "".to_string(),
        "{\"id\":1}".to_string(),
        u64::MAX,
        "/".to_string(),
    );
    let back = PyPerson::from_json(&person.to_json().unwrap()).unwrap();
    assert_same_person(&back, &person);
    let zero = PyBid::new(0, 0, 0, 0, "".to_string(), "".to_string(), "".to_string());
    let back = PyBid::from_json(&zero.to_json().unwrap()).unwrap();
    assert_same_bid(&back, &zero);
}

#[test]
fn person_mapping_is_exact() {
    let entries = sample_person().to_dict();
    let pairs = entry_pairs(&entries);
    let expected: Vec<(String, serde_json::Value)> = vec![
        ("id".to_string(), serde_json::Value::from(1000u64)),
        ("name".to_string(), serde_json::Value::from("vicky noris")),
        ("email_address".to_string(), serde_json::Value::from("yplkvgz@qbxfg.com")),
        ("credit_card".to_string(), serde_json::Value::from("7878 5821 1864 2539")),
        ("city".to_string(), serde_json::Value::from("cheyenne")),
        ("state".to_string(), serde_json::Value::from("az")),
        ("date_time".to_string(), serde_json::Value::from(1_700_000_000_000u64)),
        ("extra".to_string(), serde_json::Value::from("lwaiyhjh")),
    ];
    assert_eq!(pairs, expected);
}

#[test]
fn auction_mapping_lists_ten_fields_in_order() {
    let entries = sample_auction().to_dict();
    let keys: Vec<&str> = entries.iter().map(|entry| entry.key.as_str()).collect();
    assert_eq!(
        keys,
        vec![
            "id",
            "item_name",
            "description",
            "initial_bid",
            "reserve",
            "date_time",
            "expires",
            "seller",
            "category",
            "extra"
        ]
    );
    assert!(matches!(entries[3].value, FieldValue::Number(250)));
    assert!(matches!(entries[6].value, FieldValue::Number(1_700_000_100_000)));
}

#[test]
fn bid_mapping_lists_seven_fields_in_order() {
    let entries = sample_bid().to_dict();
    let keys: Vec<&str> = entries.iter().map(|entry| entry.key.as_str()).collect();
    assert_eq!(keys, vec!["auction", "bidder", "price", "date_time", "channel", "url", "extra"]);
    assert!(matches!(entries[2].value, FieldValue::Number(300)));
    assert!(matches!(&entries[4].value, FieldValue::Text(text) if text == "Google"));
}

#[test]
fn mapping_matches_the_parsed_json() {
    let person = sample_person();
    assert_eq!(entry_pairs(&person.to_dict()), object_pairs(&person.to_json().unwrap()));
    let auction = sample_auction();
    assert_eq!(entry_pairs(&auction.to_dict()), object_pairs(&auction.to_json().unwrap()));
    let bid = sample_bid();
    assert_eq!(entry_pairs(&bid.to_dict()), object_pairs(&bid.to_json().unwrap()));
}

#[test]
fn decode_reads_fields_in_any_order_and_skips_others() {
    let bid = PyBid::from_json(
        " { \"extra\" : \"e\", \"unknown\": [1, {\"a\": null}], \"url\":\"u\", \"channel\":\"c\",\
         \"date_time\":7, \"price\":100, \"bidder\":2, \"auction\":1, \"ratio\": 1.5 } ",
    )
    .unwrap();
    assert_eq!(bid.auction, 1);
    assert_eq!(bid.bidder, 2);
    assert_eq!(bid.price, 100);
    assert_eq!(bid.date_time, 7);
    assert_eq!(bid.channel, "c");
    assert_eq!(bid.url, "u");
    assert_eq!(bid.extra, "e");
}

#[test]
fn decode_rejects_text_that_is_no_json_object() {
    for text in ["", "{", "not json", "[1,2,3]", "null", "42", "\"text\"", "{\"id\":1} trailing"] {
        assert!(matches!(PyPerson::from_json(text), Err(DecodeError::Malformed(_))), "{}", text);
        assert!(matches!(PyAuction::from_json(text), Err(DecodeError::Malformed(_))), "{}", text);
        assert!(matches!(PyBid::from_json(text), Err(DecodeError::Malformed(_))), "{}", text);
    }
}

#[test]
fn decode_names_the_first_missing_field() {
    match PyPerson::from_json("{}") {
        Err(DecodeError::Field(key)) => assert_eq!(key, "id"),
        other => panic!("{:?}", other),
    }
    match PyPerson::from_json("{\"id\":1,\"name\":\"n\",\"email_address\":\"e\",\"city\":\"c\"}") {
        Err(DecodeError::Field(key)) => assert_eq!(key, "credit_card"),
        other => panic!("{:?}", other),
    }
    match PyAuction::from_json("{\"id\":1,\"item_name\":\"n\",\"description\":\"d\"}") {
        Err(DecodeError::Field(key)) => assert_eq!(key, "initial_bid"),
        other => panic!("{:?}", other),
    }
    match PyBid::from_json(
        "{\"auction\":1,\"bidder\":2,\"price\":3,\"date_time\":4,\"channel\":\"c\",\"url\":\"u\"}",
    ) {
        Err(DecodeError::Field(key)) => assert_eq!(key, "extra"),
        other => panic!("{:?}", other),
    }
}

#[test]
fn decode_rejects_a_field_of_another_type() {
    let cases = [
        ("{\"auction\":\"1\",\"bidder\":2,\"price\":3,\"date_time\":4,\"channel\":\"c\",\"url\":\"u\",\"extra\":\"\"}", "auction"),
        ("{\"auction\":1,\"bidder\":-2,\"price\":3,\"date_time\":4,\"channel\":\"c\",\"url\":\"u\",\"extra\":\"\"}", "bidder"),
        ("{\"auction\":1,\"bidder\":2,\"price\":3.5,\"date_time\":4,\"channel\":\"c\",\"url\":\"u\",\"extra\":\"\"}", "price"),
        ("{\"auction\":1,\"bidder\":2,\"price\":3,\"date_time\":null,\"channel\":\"c\",\"url\":\"u\",\"extra\":\"\"}", "date_time"),
        ("{\"auction\":1,\"bidder\":2,\"price\":3,\"date_time\":4,\"channel\":7,\"url\":\"u\",\"extra\":\"\"}", "channel"),
        ("{\"auction\":1,\"bidder\":2,\"price\":3,\"date_time\":4,\"channel\":\"c\",\"url\":[\"u\"],\"extra\":\"\"}", "url"),
        ("{\"auction\":1,\"bidder\":2,\"price\":3,\"date_time\":4,\"channel\":\"c\",\"url\":\"u\",\"extra\":false}", "extra"),
    ];
    for (text, field) in cases {
        match PyBid::from_json(text) {
            Err(DecodeError::Field(key)) => assert_eq!(key, field),
            other => panic!("{:?}", other),
        }
    }
}

#[test]
fn object_starts_empty_and_keeps_what_is_set() {
    let mut object = JsonObject::new();
    assert_eq!(object.get_u64("price"), None);
    assert_eq!(object.get_text("url"), None);
    assert_eq!(object.to_text().unwrap(), "{}");
    object.set_number("price", 100);
    object.set_text("url", "u");
    assert_eq!(object.get_u64("price"), Some(100));
    assert_eq!(object.get_usize("price"), Some(100));
    assert_eq!(object.get_text("url"), Some("u".to_string()));
    assert_eq!(object.get_u64("url"), None);
    assert_eq!(object.get_text("price"), None);
    assert_eq!(object.get_u64("bidder"), None);
    assert_eq!(object.to_text().unwrap(), "{\"price\":100,\"url\":\"u\"}");
    object.set_text("price", "high");
    assert_eq!(object.get_u64("price"), None);
    assert_eq!(object.get_text("price"), Some("high".to_string()));
    object.set_number("price", 7);
    assert_eq!(object.get_u64("price"), Some(7));
}

#[test]
fn object_parse_reads_numbers_and_strings() {
    let object = JsonObject::parse("{\"a\":18446744073709551615,\"b\":\"x\\ny\",\"c\":-1,\"d\":2.0}").unwrap();
    assert_eq!(object.get_u64("a"), Some(u64::MAX));
    assert_eq!(object.get_text("b"), Some("x\ny".to_string()));
    assert_eq!(object.get_u64("c"), None);
    assert_eq!(object.get_u64("d"), None);
    assert_eq!(object.get_text("a"), None);
    assert!(matches!(JsonObject::parse("[]"), Err(DecodeError::Malformed(_))));
}

#[test]
fn object_from_entries_holds_the_mapping() {
    let entries = vec![
        Entry::number("price", 100),
        Entry::text("url", &"u".to_string()),
        Entry::number("price", 200),
    ];
    let object = JsonObject::from_entries(&entries);
    assert_eq!(object.get_u64("price"), Some(200));
    assert_eq!(object.get_text("url"), Some("u".to_string()));
    assert_eq!(object.to_text().unwrap(), "{\"price\":200,\"url\":\"u\"}");
    assert_eq!(JsonObject::from_entries(&Vec::new()).to_text().unwrap(), "{}");
}

#[test]
fn parser_and_encoder_failures_become_errors() {
    let failure = serde_json::from_str::<serde_json::Map<String, serde_json::Value>>("{").unwrap_err();
    let expected = failure.to_string();
    match JsonObject::parsed(Err(failure)) {
        Err(DecodeError::Malformed(message)) => assert_eq!(message, expected),
        _ => panic!("a parser failure must be a decode error"),
    }
    let failure = serde_json::from_str::<serde_json::Value>("]").unwrap_err();
    let expected = failure.to_string();
    let error = JsonObject::written(Err(failure)).unwrap_err();
    assert_eq!(error.message, expected);
    assert_eq!(JsonObject::written(Ok("{}".to_string())).unwrap(), "{}");
    let mut members = serde_json::Map::new();
    members.insert("price".to_string(), serde_json::Value::from(5u64));
    let object = JsonObject::parsed(Ok(members)).unwrap();
    assert_eq!(object.get_u64("price"), Some(5));
}
