//! The bid record.

use vstd::prelude::*;
use vstd::string::StringExecFns;
use crate::error::DecodeError;
use crate::error::SerializationError;
use crate::json::JsonField;
use crate::json::JsonObject;
use crate::json::index_in;
use crate::json::number_in;
use crate::json::parsed_fields;
use crate::json::text_in;
use crate::mapping::Entry;
use crate::mapping::distinct_keys;
use crate::mapping::entries_view;
use crate::mapping::field_name_shapes;
use crate::mapping::object_holds_mapping;
use crate::mapping::object_of;
use crate::mapping::object_of_push;
use crate::mapping::same_fields;
use crate::text::decimal;
use crate::text::decimal_digits;

verus! {

/// A bid on an auction.
#[derive(Debug)]
pub struct PyBid {
    pub auction: usize,
    pub bidder: usize,
    pub price: usize,
    pub date_time: u64,
    pub channel: String,
    pub url: String,
    pub extra: String,
}

/// A bid as a mathematical value.
pub ghost struct BidView {
    pub auction: usize,
    pub bidder: usize,
    pub price: usize,
    pub date_time: u64,
    pub channel: Seq<char>,
    pub url: Seq<char>,
    pub extra: Seq<char>,
}

impl View for PyBid {
    type V = BidView;

    open spec fn view(&self) -> BidView {
        BidView {
            auction: self.auction,
            bidder: self.bidder,
            price: self.price,
            date_time: self.date_time,
            channel: self.channel@,
            url: self.url@,
            extra: self.extra@,
        }
    }
}

impl Clone for PyBid {
    fn clone(&self) -> (r: PyBid)
        ensures
            r@ == self@,
    {
        PyBid {
            auction: self.auction,
            bidder: self.bidder,
            price: self.price,
            date_time: self.date_time,
            channel: self.channel.clone(),
            url: self.url.clone(),
            extra: self.extra.clone(),
        }
    }
}

impl BidView {
    /// The fields of a bid, in their fixed order.
    pub open spec fn fields(self) -> Seq<(Seq<char>, JsonField)> {
        seq![
            ("auction"@, JsonField::Number(self.auction as u64)),
            ("bidder"@, JsonField::Number(self.bidder as u64)),
            ("price"@, JsonField::Number(self.price as u64)),
            ("date_time"@, JsonField::Number(self.date_time)),
            ("channel"@, JsonField::Text(self.channel)),
            ("url"@, JsonField::Text(self.url)),
            ("extra"@, JsonField::Text(self.extra)),
        ]
    }

    /// The one-line summary of a bid.
    pub open spec fn summary(self) -> Seq<char> {
        "Bid(auction="@ + decimal_digits(self.auction as nat) + ", bidder="@
            + decimal_digits(self.bidder as nat) + ", price="@
            + decimal_digits(self.price as nat) + ")"@
    }

    /// Whether a JSON object holds every field of a bid, each with a
    /// value of its type.
    pub open spec fn decodes(fields: Map<Seq<char>, JsonField>) -> bool {
        &&& index_in(fields, "auction"@) is Some
        &&& index_in(fields, "bidder"@) is Some
        &&& index_in(fields, "price"@) is Some
        &&& number_in(fields, "date_time"@) is Some
        &&& text_in(fields, "channel"@) is Some
        &&& text_in(fields, "url"@) is Some
        &&& text_in(fields, "extra"@) is Some
    }

    /// The bid that a JSON object decodes to.
    pub open spec fn decoded(fields: Map<Seq<char>, JsonField>) -> BidView
        recommends
            Self::decodes(fields),
    {
        BidView {
            auction: index_in(fields, "auction"@).unwrap(),
            bidder: index_in(fields, "bidder"@).unwrap(),
            price: index_in(fields, "price"@).unwrap(),
            date_time: number_in(fields, "date_time"@).unwrap(),
            channel: text_in(fields, "channel"@).unwrap(),
            url: text_in(fields, "url"@).unwrap(),
            extra: text_in(fields, "extra"@).unwrap(),
        }
    }

    /// The first field of a bid, in field order, that a JSON object
    /// lacks or holds with another type.
    pub open spec fn first_missing(fields: Map<Seq<char>, JsonField>) -> Seq<char>
        recommends
            !Self::decodes(fields),
    {
        if index_in(fields, "auction"@) is None {
            "auction"@
        } else if index_in(fields, "bidder"@) is None {
            "bidder"@
        } else if index_in(fields, "price"@) is None {
            "price"@
        } else if number_in(fields, "date_time"@) is None {
            "date_time"@
        } else if text_in(fields, "channel"@) is None {
            "channel"@
        } else if text_in(fields, "url"@) is None {
            "url"@
        } else {
            "extra"@
        }
    }

    /// What decoding a JSON object as a bid must return: the bid where
    /// every field is there, else the first field that is not.
    pub open spec fn decoding(
        fields: Map<Seq<char>, JsonField>,
        r: Result<PyBid, DecodeError>,
    ) -> bool {
        match r {
            Ok(bid) => Self::decodes(fields) && bid@ == Self::decoded(fields),
            Err(error) => {
                &&& !Self::decodes(fields)
                &&& error matches DecodeError::Field(key)
                &&& key@ == Self::first_missing(fields)
            },
        }
    }
}

impl PyBid {
    /// A bid with the given fields. The four numbers arrive signed and
    /// must not be negative.
    pub fn new(
        auction: i64,
        bidder: i64,
        price: i64,
        date_time: i64,
        channel: String,
        url: String,
        extra: String,
    ) -> (r: PyBid)
        requires
            0 <= auction <= usize::MAX,
            0 <= bidder <= usize::MAX,
            0 <= price <= usize::MAX,
            0 <= date_time,
        ensures
            r.auction == auction,
            r.bidder == bidder,
            r.price == price,
            r.date_time == date_time,
            r.channel@ == channel@,
            r.url@ == url@,
            r.extra@ == extra@,
    {
        PyBid {
            auction: auction as usize,
            bidder: bidder as usize,
            price: price as usize,
            date_time: date_time as u64,
            channel,
            url,
            extra,
        }
    }

    /// The one-line summary: auction, bidder and price.
    pub fn __repr__(&self) -> (r: String)
        ensures
            r@ == self@.summary(),
    {
        let mut line = "Bid(auction=".to_owned();
        line.append(decimal(self.auction as u64).as_str());
        line.append(", bidder=");
        line.append(decimal(self.bidder as u64).as_str());
        line.append(", price=");
        line.append(decimal(self.price as u64).as_str());
        line.append(")");
        line
    }

    /// The fields of the bid as a mapping, in their fixed order.
    pub fn to_dict(&self) -> (r: Vec<Entry>)
        ensures
            entries_view(r@) == self@.fields(),
    {
        let mut entries: Vec<Entry> = Vec::new();
        entries.push(Entry::number("auction", self.auction as u64));
        entries.push(Entry::number("bidder", self.bidder as u64));
        entries.push(Entry::number("price", self.price as u64));
        entries.push(Entry::number("date_time", self.date_time));
        entries.push(Entry::text("channel", &self.channel));
        entries.push(Entry::text("url", &self.url));
        entries.push(Entry::text("extra", &self.extra));
        assert(entries_view(entries@) =~= self@.fields());
        entries
    }

    /// The bid as the text of one JSON object. Encoding never fails, and
    /// the text reads back as an object with exactly the fields of the bid.
    pub fn to_json(&self) -> (r: Result<String, SerializationError>)
        ensures
            r matches Ok(text) && parsed_fields(text@) == Some(object_of(self@.fields())),
    {
        let entries = self.to_dict();
        JsonObject::from_entries(&entries).to_text()
    }

    /// Decodes a bid from the text of a JSON object.
    pub fn from_json(json: &str) -> (r: Result<PyBid, DecodeError>)
        ensures
            match parsed_fields(json@) {
                Some(fields) => BidView::decoding(fields, r),
                None => r matches Err(DecodeError::Malformed(_)),
            },
    {
        match JsonObject::parse(json) {
            Ok(object) => PyBid::from_object(&object),
            Err(error) => Err(error),
        }
    }

    /// Decodes a bid from a JSON object. Members that are no field of
    /// a bid are ignored.
    pub fn from_object(object: &JsonObject) -> (r: Result<PyBid, DecodeError>)
        ensures
            BidView::decoding(object@, r),
    {
        let auction = match object.get_usize("auction") {
            Some(auction) => auction,
            None => {
                return Err(DecodeError::Field("auction".to_owned()));
            },
        };
        let bidder = match object.get_usize("bidder") {
            Some(bidder) => bidder,
            None => {
                return Err(DecodeError::Field("bidder".to_owned()));
            },
        };
        let price = match object.get_usize("price") {
            Some(price) => price,
            None => {
                return Err(DecodeError::Field("price".to_owned()));
            },
        };
        let date_time = match object.get_u64("date_time") {
            Some(date_time) => date_time,
            None => {
                return Err(DecodeError::Field("date_time".to_owned()));
            },
        };
        let channel = match object.get_text("channel") {
            Some(channel) => channel,
            None => {
                return Err(DecodeError::Field("channel".to_owned()));
            },
        };
        let url = match object.get_text("url") {
            Some(url) => url,
            None => {
                return Err(DecodeError::Field("url".to_owned()));
            },
        };
        let extra = match object.get_text("extra") {
            Some(extra) => extra,
            None => {
                return Err(DecodeError::Field("extra".to_owned()));
            },
        };
        Ok(PyBid { auction, bidder, price, date_time, channel, url, extra })
    }
}

/// The JSON object of a bid holds each of its seven fields under the
/// field's name, and nothing else.
pub proof fn bid_object(bid: BidView)
    ensures
        object_of(bid.fields()) == bid_members(bid),
{
    let f = bid.fields();
    let e0 = Seq::<(Seq<char>, JsonField)>::empty();
    let e1 = e0.push(f[0]);
    let e2 = e1.push(f[1]);
    let e3 = e2.push(f[2]);
    let e4 = e3.push(f[3]);
    let e5 = e4.push(f[4]);
    let e6 = e5.push(f[5]);
    let e7 = e6.push(f[6]);
    assert(e7 =~= f);
    object_of_push(e0, f[0].0, f[0].1);
    object_of_push(e1, f[1].0, f[1].1);
    object_of_push(e2, f[2].0, f[2].1);
    object_of_push(e3, f[3].0, f[3].1);
    object_of_push(e4, f[4].0, f[4].1);
    object_of_push(e5, f[5].0, f[5].1);
    object_of_push(e6, f[6].0, f[6].1);
}

/// The members of the JSON object of a bid, written out.
pub open spec fn bid_members(bid: BidView) -> Map<Seq<char>, JsonField> {
    Map::empty()
        .insert("auction"@, JsonField::Number(bid.auction as u64))
        .insert("bidder"@, JsonField::Number(bid.bidder as u64))
        .insert("price"@, JsonField::Number(bid.price as u64))
        .insert("date_time"@, JsonField::Number(bid.date_time))
        .insert("channel"@, JsonField::Text(bid.channel))
        .insert("url"@, JsonField::Text(bid.url))
        .insert("extra"@, JsonField::Text(bid.extra))
}

/// No two fields of a bid share a name.
pub proof fn bid_fields_distinct(bid: BidView)
    ensures
        distinct_keys(bid.fields()),
{
    field_name_shapes();
}

/// The mapping of a bid and the JSON object of a bid hold the same
/// keys with the same values.
pub proof fn bid_mapping_fidelity(bid: BidView)
    ensures
        same_fields(bid.fields(), object_of(bid.fields())),
{
    bid_fields_distinct(bid);
    object_holds_mapping(bid.fields());
}

/// Decoding the JSON object of a bid gives the bid back, field for
/// field.
pub proof fn bid_round_trip(bid: BidView)
    ensures
        BidView::decodes(object_of(bid.fields())),
        BidView::decoded(object_of(bid.fields())) == bid,
{
    bid_object(bid);
    field_name_shapes();
}

} // verus!
