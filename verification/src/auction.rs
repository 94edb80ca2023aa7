//! The auction record.

use vstd::prelude::*;
use vstd::string::StringExecFns;
use crate::error::DecodeError;
use crate::error::SerializationError;
use crate::json::JsonField;
use crate::json::JsonObject;
use crate::json::index_in;
use crate::json::number_in;
use crate::json::parsed_fields;
use crate::json::text_in;
use crate::mapping::Entry;
use crate::mapping::distinct_keys;
use crate::mapping::entries_view;
use crate::mapping::field_name_shapes;
use crate::mapping::object_holds_mapping;
use crate::mapping::object_of;
use crate::mapping::object_of_push;
use crate::mapping::same_fields;
use crate::text::decimal;
use crate::text::decimal_digits;

verus! {

/// An item put up for auction.
#[derive(Debug)]
pub struct PyAuction {
    pub id: usize,
    pub item_name: String,
    pub description: String,
    pub initial_bid: usize,
    pub reserve: usize,
    pub date_time: u64,
    pub expires: u64,
    pub seller: usize,
    pub category: usize,
    pub extra: String,
}

/// An auction as a mathematical value.
pub ghost struct AuctionView {
    pub id: usize,
    pub item_name: Seq<char>,
    pub description: Seq<char>,
    pub initial_bid: usize,
    pub reserve: usize,
    pub date_time: u64,
    pub expires: u64,
    pub seller: usize,
    pub category: usize,
    pub extra: Seq<char>,
}

impl View for PyAuction {
    type V = AuctionView;

    open spec fn view(&self) -> AuctionView {
        AuctionView {
            id: self.id,
            item_name: self.item_name@,
            description: self.description@,
            initial_bid: self.initial_bid,
            reserve: self.reserve,
            date_time: self.date_time,
            expires: self.expires,
            seller: self.seller,
            category: self.category,
            extra: self.extra@,
        }
    }
}

impl Clone for PyAuction {
    fn clone(&self) -> (r: PyAuction)
        ensures
            r@ == self@,
    {
        PyAuction {
            id: self.id,
            item_name: self.item_name.clone(),
            description: self.description.clone(),
            initial_bid: self.initial_bid,
            reserve: self.reserve,
            date_time: self.date_time,
            expires: self.expires,
            seller: self.seller,
            category: self.category,
            extra: self.extra.clone(),
        }
    }
}

impl AuctionView {
    /// The fields of an auction, in their fixed order.
    pub open spec fn fields(self) -> Seq<(Seq<char>, JsonField)> {
        seq![
            ("id"@, JsonField::Number(self.id as u64)),
            ("item_name"@, JsonField::Text(self.item_name)),
            ("description"@, JsonField::Text(self.description)),
            ("initial_bid"@, JsonField::Number(self.initial_bid as u64)),
            ("reserve"@, JsonField::Number(self.reserve as u64)),
            ("date_time"@, JsonField::Number(self.date_time)),
            ("expires"@, JsonField::Number(self.expires)),
            ("seller"@, JsonField::Number(self.seller as u64)),
            ("category"@, JsonField::Number(self.category as u64)),
            ("extra"@, JsonField::Text(self.extra)),
        ]
    }

    /// The one-line summary of an auction.
    pub open spec fn summary(self) -> Seq<char> {
        "Auction(id="@ + decimal_digits(self.id as nat) + ", item='"@ + self.item_name
            + "', initial_bid="@ + decimal_digits(self.initial_bid as nat) + ", seller="@
            + decimal_digits(self.seller as nat) + ")"@
    }

    /// Whether a JSON object holds every field of an auction, each with a
    /// value of its type.
    pub open spec fn decodes(fields: Map<Seq<char>, JsonField>) -> bool {
        &&& index_in(fields, "id"@) is Some
        &&& text_in(fields, "item_name"@) is Some
        &&& text_in(fields, "description"@) is Some
        &&& index_in(fields, "initial_bid"@) is Some
        &&& index_in(fields, "reserve"@) is Some
        &&& number_in(fields, "date_time"@) is Some
        &&& number_in(fields, "expires"@) is Some
        &&& index_in(fields, "seller"@) is Some
        &&& index_in(fields, "category"@) is Some
        &&& text_in(fields, "extra"@) is Some
    }

    /// The auction that a JSON object decodes to.
    pub open spec fn decoded(fields: Map<Seq<char>, JsonField>) -> AuctionView
        recommends
            Self::decodes(fields),
    {
        AuctionView {
            id: index_in(fields, "id"@).unwrap(),
            item_name: text_in(fields, "item_name"@).unwrap(),
            description: text_in(fields, "description"@).unwrap(),
            initial_bid: index_in(fields, "initial_bid"@).unwrap(),
            reserve: index_in(fields, "reserve"@).unwrap(),
            date_time: number_in(fields, "date_time"@).unwrap(),
            expires: number_in(fields, "expires"@).unwrap(),
            seller: index_in(fields, "seller"@).unwrap(),
            category: index_in(fields, "category"@).unwrap(),
            extra: text_in(fields, "extra"@).unwrap(),
        }
    }

    /// The first field of an auction, in field order, that a JSON object
    /// lacks or holds with another type.
    pub open spec fn first_missing(fields: Map<Seq<char>, JsonField>) -> Seq<char>
        recommends
            !Self::decodes(fields),
    {
        if index_in(fields, "id"@) is None {
            "id"@
        } else if text_in(fields, "item_name"@) is None {
            "item_name"@
        } else if text_in(fields, "description"@) is None {
            "description"@
        } else if index_in(fields, "initial_bid"@) is None {
            "initial_bid"@
        } else if index_in(fields, "reserve"@) is None {
            "reserve"@
        } else if number_in(fields, "date_time"@) is None {
            "date_time"@
        } else if number_in(fields, "expires"@) is None {
            "expires"@
        } else if index_in(fields, "seller"@) is None {
            "seller"@
        } else if index_in(fields, "category"@) is None {
            "category"@
        } else {
            "extra"@
        }
    }

    /// What decoding a JSON object as an auction must return: the auction where
    /// every field is there, else the first field that is not.
    pub open spec fn decoding(
        fields: Map<Seq<char>, JsonField>,
        r: Result<PyAuction, DecodeError>,
    ) -> bool {
        match r {
            Ok(auction) => Self::decodes(fields) && auction@ == Self::decoded(fields),
            Err(error) => {
                &&& !Self::decodes(fields)
                &&& error matches DecodeError::Field(key)
                &&& key@ == Self::first_missing(fields)
            },
        }
    }
}

impl PyAuction {
    /// An auction with the given fields.
    pub fn new(
        id: usize,
        item_name: String,
        description: String,
        initial_bid: usize,
        reserve: usize,
        date_time: u64,
        expires: u64,
        seller: usize,
        category: usize,
        extra: String,
    ) -> (r: PyAuction)
        ensures
            r@ == (AuctionView {
                id,
                item_name: item_name@,
                description: description@,
                initial_bid,
                reserve,
                date_time,
                expires,
                seller,
                category,
                extra: extra@,
            }),
    {
        PyAuction {
            id,
            item_name,
            description,
            initial_bid,
            reserve,
            date_time,
            expires,
            seller,
            category,
            extra,
        }
    }

    /// The one-line summary: id, item name, initial bid and seller.
    pub fn __repr__(&self) -> (r: String)
        ensures
            r@ == self@.summary(),
    {
        let mut line = "Auction(id=".to_owned();
        line.append(decimal(self.id as u64).as_str());
        line.append(", item='");
        line.append(self.item_name.as_str());
        line.append("', initial_bid=");
        line.append(decimal(self.initial_bid as u64).as_str());
        line.append(", seller=");
        line.append(decimal(self.seller as u64).as_str());
        line.append(")");
        line
    }

    /// The fields of the auction as a mapping, in their fixed order.
    pub fn to_dict(&self) -> (r: Vec<Entry>)
        ensures
            entries_view(r@) == self@.fields(),
    {
        let mut entries: Vec<Entry> = Vec::new();
        entries.push(Entry::number("id", self.id as u64));
        entries.push(Entry::text("item_name", &self.item_name));
        entries.push(Entry::text("description", &self.description));
        entries.push(Entry::number("initial_bid", self.initial_bid as u64));
        entries.push(Entry::number("reserve", self.reserve as u64));
        entries.push(Entry::number("date_time", self.date_time));
        entries.push(Entry::number("expires", self.expires));
        entries.push(Entry::number("seller", self.seller as u64));
        entries.push(Entry::number("category", self.category as u64));
        entries.push(Entry::text("extra", &self.extra));
        assert(entries_view(entries@) =~= self@.fields());
        entries
    }

    /// The auction as the text of one JSON object. Encoding never fails, and
    /// the text reads back as an object with exactly the fields of the auction.
    pub fn to_json(&self) -> (r: Result<String, SerializationError>)
        ensures
            r matches Ok(text) && parsed_fields(text@) == Some(object_of(self@.fields())),
    {
        let entries = self.to_dict();
        JsonObject::from_entries(&entries).to_text()
    }

    /// Decodes an auction from the text of a JSON object.
    pub fn from_json(json: &str) -> (r: Result<PyAuction, DecodeError>)
        ensures
            match parsed_fields(json@) {
                Some(fields) => AuctionView::decoding(fields, r),
                None => r matches Err(DecodeError::Malformed(_)),
            },
    {
        match JsonObject::parse(json) {
            Ok(object) => PyAuction::from_object(&object),
            Err(error) => Err(error),
        }
    }

    /// Decodes an auction from a JSON object. Members that are no field of
    /// an auction are ignored.
    pub fn from_object(object: &JsonObject) -> (r: Result<PyAuction, DecodeError>)
        ensures
            AuctionView::decoding(object@, r),
    {
        let id = match object.get_usize("id") {
            Some(id) => id,
            None => {
                return Err(DecodeError::Field("id".to_owned()));
            },
        };
        let item_name = match object.get_text("item_name") {
            Some(item_name) => item_name,
            None => {
                return Err(DecodeError::Field("item_name".to_owned()));
            },
        };
        let description = match object.get_text("description") {
            Some(description) => description,
            None => {
                return Err(DecodeError::Field("description".to_owned()));
            },
        };
        let initial_bid = match object.get_usize("initial_bid") {
            Some(initial_bid) => initial_bid,
            None => {
                return Err(DecodeError::Field("initial_bid".to_owned()));
            },
        };
        let reserve = match object.get_usize("reserve") {
            Some(reserve) => reserve,
            None => {
                return Err(DecodeError::Field("reserve".to_owned()));
            },
        };
        let date_time = match object.get_u64("date_time") {
            Some(date_time) => date_time,
            None => {
                return Err(DecodeError::Field("date_time".to_owned()));
            },
        };
        let expires = match object.get_u64("expires") {
            Some(expires) => expires,
            None => {
                return Err(DecodeError::Field("expires".to_owned()));
            },
        };
        let seller = match object.get_usize("seller") {
            Some(seller) => seller,
            None => {
                return Err(DecodeError::Field("seller".to_owned()));
            },
        };
        let category = match object.get_usize("category") {
            Some(category) => category,
            None => {
                return Err(DecodeError::Field("category".to_owned()));
            },
        };
        let extra = match object.get_text("extra") {
            Some(extra) => extra,
            None => {
                return Err(DecodeError::Field("extra".to_owned()));
            },
        };
        Ok(PyAuction {
            id,
            item_name,
            description,
            initial_bid,
            reserve,
            date_time,
            expires,
            seller,
            category,
            extra,
        })
    }
}

/// The JSON object of an auction holds each of its ten fields under the
/// field's name, and nothing else.
pub proof fn auction_object(auction: AuctionView)
    ensures
        object_of(auction.fields()) == auction_members(auction),
{
    let f = auction.fields();
    let e0 = Seq::<(Seq<char>, JsonField)>::empty();
    let e1 = e0.push(f[0]);
    let e2 = e1.push(f[1]);
    let e3 = e2.push(f[2]);
    let e4 = e3.push(f[3]);
    let e5 = e4.push(f[4]);
    let e6 = e5.push(f[5]);
    let e7 = e6.push(f[6]);
    let e8 = e7.push(f[7]);
    let e9 = e8.push(f[8]);
    let e10 = e9.push(f[9]);
    assert(e10 =~= f);
    object_of_push(e0, f[0].0, f[0].1);
    object_of_push(e1, f[1].0, f[1].1);
    object_of_push(e2, f[2].0, f[2].1);
    object_of_push(e3, f[3].0, f[3].1);
    object_of_push(e4, f[4].0, f[4].1);
    object_of_push(e5, f[5].0, f[5].1);
    object_of_push(e6, f[6].0, f[6].1);
    object_of_push(e7, f[7].0, f[7].1);
    object_of_push(e8, f[8].0, f[8].1);
    object_of_push(e9, f[9].0, f[9].1);
}

/// The members of the JSON object of an auction, written out.
pub open spec fn auction_members(auction: AuctionView) -> Map<Seq<char>, JsonField> {
    Map::empty()
        .insert("id"@, JsonField::Number(auction.id as u64))
        .insert("item_name"@, JsonField::Text(auction.item_name))
        .insert("description"@, JsonField::Text(auction.description))
        .insert("initial_bid"@, JsonField::Number(auction.initial_bid as u64))
        .insert("reserve"@, JsonField::Number(auction.reserve as u64))
        .insert("date_time"@, JsonField::Number(auction.date_time))
        .insert("expires"@, JsonField::Number(auction.expires))
        .insert("seller"@, JsonField::Number(auction.seller as u64))
        .insert("category"@, JsonField::Number(auction.category as u64))
        .insert("extra"@, JsonField::Text(auction.extra))
}

/// No two fields of an auction share a name.
pub proof fn auction_fields_distinct(auction: AuctionView)
    ensures
        distinct_keys(auction.fields()),
{
    field_name_shapes();
}

/// The mapping of an auction and the JSON object of an auction hold the same
/// keys with the same values.
pub proof fn auction_mapping_fidelity(auction: AuctionView)
    ensures
        same_fields(auction.fields(), object_of(auction.fields())),
{
    auction_fields_distinct(auction);
    object_holds_mapping(auction.fields());
}

/// Decoding the JSON object of an auction gives the auction back, field for
/// field.
pub proof fn auction_round_trip(auction: AuctionView)
    ensures
        AuctionView::decodes(object_of(auction.fields())),
        AuctionView::decoded(object_of(auction.fields())) == auction,
{
    auction_object(auction);
    field_name_shapes();
}

} // verus!
