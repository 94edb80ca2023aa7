//! The event: exactly one of a person, an auction or a bid.

use vstd::prelude::*;
use vstd::std_specs::convert::FromSpecImpl;
use crate::auction::AuctionView;
use crate::auction::PyAuction;
use crate::bid::BidView;
use crate::bid::PyBid;
use crate::error::SerializationError;
use crate::error::TypeError;
use crate::error::type_error_text;
use crate::json::JsonField;
use crate::json::JsonObject;
use crate::json::parsed_fields;
use crate::mapping::Entry;
use crate::mapping::entries_view;
use crate::mapping::object_of;
use crate::person::PersonView;
use crate::person::PyPerson;

verus! {

/// The payload of an event.
#[derive(Debug)]
pub enum PyEventEnum {
    Person(PyPerson),
    Auction(PyAuction),
    Bid(PyBid),
}

/// An event. It never changes once made.
#[derive(Debug)]
pub struct PyEvent {
    pub inner: PyEventEnum,
}

/// A value that a host offers as an event.
#[derive(Debug)]
pub enum HostValue {
    Person(PyPerson),
    Auction(PyAuction),
    Bid(PyBid),
    /// A text, taken for the JSON of a record.
    Text(String),
    /// Anything else.
    Other,
}

/// An event as a mathematical value.
pub ghost enum EventView {
    Person(PersonView),
    Auction(AuctionView),
    Bid(BidView),
}

impl View for PyEventEnum {
    type V = EventView;

    open spec fn view(&self) -> EventView {
        match self {
            PyEventEnum::Person(person) => EventView::Person(person@),
            PyEventEnum::Auction(auction) => EventView::Auction(auction@),
            PyEventEnum::Bid(bid) => EventView::Bid(bid@),
        }
    }
}

impl View for PyEvent {
    type V = EventView;

    open spec fn view(&self) -> EventView {
        self.inner@
    }
}

impl Clone for PyEventEnum {
    fn clone(&self) -> (r: PyEventEnum)
        ensures
            r@ == self@,
    {
        match self {
            PyEventEnum::Person(person) => PyEventEnum::Person(person.clone()),
            PyEventEnum::Auction(auction) => PyEventEnum::Auction(auction.clone()),
            PyEventEnum::Bid(bid) => PyEventEnum::Bid(bid.clone()),
        }
    }
}

impl EventView {
    pub open spec fn is_person(self) -> bool {
        self is Person
    }

    pub open spec fn is_auction(self) -> bool {
        self is Auction
    }

    pub open spec fn is_bid(self) -> bool {
        self is Bid
    }

    /// The tag of the event's kind.
    pub open spec fn kind(self) -> Seq<char> {
        match self {
            EventView::Person(_) => "person"@,
            EventView::Auction(_) => "auction"@,
            EventView::Bid(_) => "bid"@,
        }
    }

    /// The fields of the event's record, in their fixed order.
    pub open spec fn fields(self) -> Seq<(Seq<char>, JsonField)> {
        match self {
            EventView::Person(person) => person.fields(),
            EventView::Auction(auction) => auction.fields(),
            EventView::Bid(bid) => bid.fields(),
        }
    }

    /// The one-line summary of the event's record.
    pub open spec fn summary(self) -> Seq<char> {
        match self {
            EventView::Person(person) => person.summary(),
            EventView::Auction(auction) => auction.summary(),
            EventView::Bid(bid) => bid.summary(),
        }
    }

    /// The event that a JSON object stands for: a person where it decodes
    /// as one; else an auction where it decodes as one; else a bid where it
    /// decodes as one.
    pub open spec fn resolved(fields: Map<Seq<char>, JsonField>) -> Option<EventView> {
        if PersonView::decodes(fields) {
            Some(EventView::Person(PersonView::decoded(fields)))
        } else if AuctionView::decodes(fields) {
            Some(EventView::Auction(AuctionView::decoded(fields)))
        } else if BidView::decodes(fields) {
            Some(EventView::Bid(BidView::decoded(fields)))
        } else {
            None
        }
    }

    /// What resolving a JSON object must return: the event it stands for,
    /// or the type error where it stands for none.
    pub open spec fn resolving(resolved: Option<EventView>, r: Result<PyEvent, TypeError>) -> bool {
        match r {
            Ok(event) => resolved == Some(event@),
            Err(error) => resolved is None && error.message@ == type_error_text(),
        }
    }

    /// The event that a host value stands for.
    pub open spec fn of_host(value: HostValue) -> Option<EventView> {
        match value {
            HostValue::Person(person) => Some(EventView::Person(person@)),
            HostValue::Auction(auction) => Some(EventView::Auction(auction@)),
            HostValue::Bid(bid) => Some(EventView::Bid(bid@)),
            HostValue::Text(text) => match parsed_fields(text@) {
                Some(fields) => Self::resolved(fields),
                None => None,
            },
            HostValue::Other => None,
        }
    }
}

impl PyEvent {
    /// Makes an event of a host value. A record is wrapped as it is. A text
    /// is read as a JSON object and tried as a person, then as an auction,
    /// then as a bid: the first that fits decides. Anything else is a type
    /// error.
    pub fn new(obj: HostValue) -> (r: Result<PyEvent, TypeError>)
        ensures
            EventView::resolving(EventView::of_host(obj), r),
    {
        match obj {
            HostValue::Person(person) => Ok(PyEvent { inner: PyEventEnum::Person(person) }),
            HostValue::Auction(auction) => Ok(PyEvent { inner: PyEventEnum::Auction(auction) }),
            HostValue::Bid(bid) => Ok(PyEvent { inner: PyEventEnum::Bid(bid) }),
            HostValue::Text(text) => match JsonObject::parse(text.as_str()) {
                Ok(object) => PyEvent::from_object(&object),
                Err(_) => Err(TypeError::no_match()),
            },
            HostValue::Other => Err(TypeError::no_match()),
        }
    }

    /// Makes an event of a JSON object, trying a person, then an auction,
    /// then a bid.
    pub fn from_object(object: &JsonObject) -> (r: Result<PyEvent, TypeError>)
        ensures
            EventView::resolving(EventView::resolved(object@), r),
    {
        if let Ok(person) = PyPerson::from_object(object) {
            return Ok(PyEvent { inner: PyEventEnum::Person(person) });
        }
        if let Ok(auction) = PyAuction::from_object(object) {
            return Ok(PyEvent { inner: PyEventEnum::Auction(auction) });
        }
        if let Ok(bid) = PyBid::from_object(object) {
            return Ok(PyEvent { inner: PyEventEnum::Bid(bid) });
        }
        Err(TypeError::no_match())
    }

    /// The one-line summary of the record inside.
    pub fn __repr__(&self) -> (r: String)
        ensures
            r@ == self@.summary(),
    {
        match &self.inner {
            PyEventEnum::Person(person) => person.__repr__(),
            PyEventEnum::Auction(auction) => auction.__repr__(),
            PyEventEnum::Bid(bid) => bid.__repr__(),
        }
    }

    /// A copy of the record inside.
    pub fn value(&self) -> (r: PyEventEnum)
        ensures
            r@ == self@,
    {
        self.inner.clone()
    }

    /// The tag of the event's kind: `person`, `auction` or `bid`.
    pub fn kind(&self) -> (r: &'static str)
        ensures
            r@ == self@.kind(),
    {
        match &self.inner {
            PyEventEnum::Person(_) => "person",
            PyEventEnum::Auction(_) => "auction",
            PyEventEnum::Bid(_) => "bid",
        }
    }

    /// A copy of the person inside; nothing where the event is no person.
    pub fn get_person(&self) -> (r: Option<PyPerson>)
        ensures
            match r {
                Some(person) => self@ == EventView::Person(person@),
                None => !self@.is_person(),
            },
    {
        match &self.inner {
            PyEventEnum::Person(person) => Some(person.clone()),
            _ => None,
        }
    }

    /// A copy of the auction inside; nothing where the event is no auction.
    pub fn get_auction(&self) -> (r: Option<PyAuction>)
        ensures
            match r {
                Some(auction) => self@ == EventView::Auction(auction@),
                None => !self@.is_auction(),
            },
    {
        match &self.inner {
            PyEventEnum::Auction(auction) => Some(auction.clone()),
            _ => None,
        }
    }

    /// A copy of the bid inside; nothing where the event is no bid.
    pub fn get_bid(&self) -> (r: Option<PyBid>)
        ensures
            match r {
                Some(bid) => self@ == EventView::Bid(bid@),
                None => !self@.is_bid(),
            },
    {
        match &self.inner {
            PyEventEnum::Bid(bid) => Some(bid.clone()),
            _ => None,
        }
    }

    pub fn is_person(&self) -> (r: bool)
        ensures
            r == self@.is_person(),
    {
        matches!(self.inner, PyEventEnum::Person(_))
    }

    pub fn is_auction(&self) -> (r: bool)
        ensures
            r == self@.is_auction(),
    {
        matches!(self.inner, PyEventEnum::Auction(_))
    }

    pub fn is_bid(&self) -> (r: bool)
        ensures
            r == self@.is_bid(),
    {
        matches!(self.inner, PyEventEnum::Bid(_))
    }

    /// The record inside as the text of one JSON object. Encoding never
    /// fails, and the text reads back as exactly the record's fields.
    pub fn to_json(&self) -> (r: Result<String, SerializationError>)
        ensures
            r matches Ok(text) && parsed_fields(text@) == Some(object_of(self@.fields())),
    {
        match &self.inner {
            PyEventEnum::Person(person) => person.to_json(),
            PyEventEnum::Auction(auction) => auction.to_json(),
            PyEventEnum::Bid(bid) => bid.to_json(),
        }
    }

    /// The fields of the record inside as a mapping, in their fixed order.
    pub fn to_dict(&self) -> (r: Vec<Entry>)
        ensures
            entries_view(r@) == self@.fields(),
    {
        match &self.inner {
            PyEventEnum::Person(person) => person.to_dict(),
            PyEventEnum::Auction(auction) => auction.to_dict(),
            PyEventEnum::Bid(bid) => bid.to_dict(),
        }
    }
}

impl From<nexmark::event::Event> for PyEvent {
    /// The event that the generator made, every field kept as it is.
    fn from(event: nexmark::event::Event) -> (r: PyEvent) {
        let inner = match event {
            nexmark::event::Event::Person(person) => PyEventEnum::Person(
                PyPerson {
                    id: person.id,
                    name: person.name,
                    email_address: person.email_address,
                    credit_card: person.credit_card,
                    city: person.city,
                    state: person.state,
                    date_time: person.date_time,
                    extra: person.extra,
                },
            ),
            nexmark::event::Event::Auction(auction) => PyEventEnum::Auction(
                PyAuction {
                    id: auction.id,
                    item_name: auction.item_name,
                    description: auction.description,
                    initial_bid: auction.initial_bid,
                    reserve: auction.reserve,
                    date_time: auction.date_time,
                    expires: auction.expires,
                    seller: auction.seller,
                    category: auction.category,
                    extra: auction.extra,
                },
            ),
            nexmark::event::Event::Bid(bid) => PyEventEnum::Bid(
                PyBid {
                    auction: bid.auction,
                    bidder: bid.bidder,
                    price: bid.price,
                    date_time: bid.date_time,
                    channel: bid.channel,
                    url: bid.url,
                    extra: bid.extra,
                },
            ),
        };
        PyEvent { inner }
    }
}

impl FromSpecImpl<nexmark::event::Event> for PyEvent {
    open spec fn obeys_from_spec() -> bool {
        true
    }

    open spec fn from_spec(event: nexmark::event::Event) -> PyEvent {
        PyEvent { inner: generated(event) }
    }
}

/// The payload that stands for an event of the generator: the same kind,
/// and each field with the value it has there.
pub open spec fn generated(event: nexmark::event::Event) -> PyEventEnum {
    match event {
        nexmark::event::Event::Person(person) => PyEventEnum::Person(
            PyPerson {
                id: person.id,
                name: person.name,
                email_address: person.email_address,
                credit_card: person.credit_card,
                city: person.city,
                state: person.state,
                date_time: person.date_time,
                extra: person.extra,
            },
        ),
        nexmark::event::Event::Auction(auction) => PyEventEnum::Auction(
            PyAuction {
                id: auction.id,
                item_name: auction.item_name,
                description: auction.description,
                initial_bid: auction.initial_bid,
                reserve: auction.reserve,
                date_time: auction.date_time,
                expires: auction.expires,
                seller: auction.seller,
                category: auction.category,
                extra: auction.extra,
            },
        ),
        nexmark::event::Event::Bid(bid) => PyEventEnum::Bid(
            PyBid {
                auction: bid.auction,
                bidder: bid.bidder,
                price: bid.price,
                date_time: bid.date_time,
                channel: bid.channel,
                url: bid.url,
                extra: bid.extra,
            },
        ),
    }
}

/// Exactly one of the three kinds holds of an event, and the tag names it.
pub proof fn event_kind_exclusive(event: EventView)
    ensures
        event.is_person() || event.is_auction() || event.is_bid(),
        !(event.is_person() && event.is_auction()),
        !(event.is_person() && event.is_bid()),
        !(event.is_auction() && event.is_bid()),
        event.is_person() <==> event.kind() == "person"@,
        event.is_auction() <==> event.kind() == "auction"@,
        event.is_bid() <==> event.kind() == "bid"@,
{
    reveal_strlit("person");
    reveal_strlit("auction");
    reveal_strlit("bid");
    assert("person"@.len() == 6);
    assert("auction"@.len() == 7);
    assert("bid"@.len() == 3);
}

/// Where a JSON object decodes as more than one record, a person wins over
/// an auction, and an auction over a bid.
pub proof fn resolver_order(fields: Map<Seq<char>, JsonField>)
    ensures
        PersonView::decodes(fields) ==> EventView::resolved(fields) == Some(
            EventView::Person(PersonView::decoded(fields)),
        ),
        !PersonView::decodes(fields) && AuctionView::decodes(fields) ==> EventView::resolved(fields)
            == Some(EventView::Auction(AuctionView::decoded(fields))),
        !PersonView::decodes(fields) && !AuctionView::decodes(fields) && BidView::decodes(fields)
            ==> EventView::resolved(fields) == Some(EventView::Bid(BidView::decoded(fields))),
        EventView::resolved(fields) is Some <==> PersonView::decodes(fields)
            || AuctionView::decodes(fields) || BidView::decodes(fields),
{
}

} // verus!
