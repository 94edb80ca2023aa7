use nexmark_events::auction::PyAuction;
use nexmark_events::bid::PyBid;
use nexmark_events::person::PyPerson;
use nexmark_events::text::decimal;

#[test]
fn decimal_renders_without_padding() {
    assert_eq!(decimal(0), "0");
    assert_eq!(decimal(7), "7");
    assert_eq!(decimal(10), "10");
    assert_eq!(decimal(1234567890), "1234567890");
    assert_eq!(decimal(u64::MAX), "18446744073709551615");
}

#[test]
fn person_summary_is_exact() {
    let person = PyPerson::new(
        1000,
        "vicky noris".to_string(),
        "yplkvgz@qbxfg.com".to_string(),
        "7878 5821 1864 2539".to_string(),
        "cheyenne".to_string(),
        "az".to_string(),
        1,
        "x".to_string(),
    );
    assert_eq!(
        person.__repr__(),
        "Person(id=1000, name='vicky noris', email='yplkvgz@qbxfg.com', city='cheyenne', state='az')"
    );
}

#[test]
fn auction_summary_is_exact() {
    let auction = PyAuction::new(
        1001,
        "chair".to_string(),
        "a wooden chair".to_string(),
        250,
        900,
        1,
        2,
        1000,
        12,
        "".to_string(),
    );
    assert_eq!(auction.__repr__(), "Auction(id=1001, item='chair', initial_bid=250, seller=1000)");
}

#[test]
fn bid_summary_is_exact() {
    let bid = PyBid::new(1001, 1000, 300, 5, "c".to_string(), "u".to_string(), "".to_string());
    assert_eq!(bid.__repr__(), "Bid(auction=1001, bidder=1000, price=300)");
}
