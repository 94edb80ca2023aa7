//! The person record.

use vstd::prelude::*;
use vstd::string::StringExecFns;
use crate::error::DecodeError;
use crate::error::SerializationError;
use crate::json::JsonField;
use crate::json::JsonObject;
use crate::json::index_in;
use crate::json::number_in;
use crate::json::parsed_fields;
use crate::json::text_in;
use crate::mapping::Entry;
use crate::mapping::distinct_keys;
use crate::mapping::entries_view;
use crate::mapping::field_name_shapes;
use crate::mapping::object_holds_mapping;
use crate::mapping::object_of;
use crate::mapping::object_of_push;
use crate::mapping::same_fields;
use crate::text::decimal;
use crate::text::decimal_digits;

verus! {

/// A person who sells or bids.
#[derive(Debug)]
pub struct PyPerson {
    pub id: usize,
    pub name: String,
    pub email_address: String,
    pub credit_card: String,
    pub city: String,
    pub state: String,
    pub date_time: u64,
    pub extra: String,
}

/// A person as a mathematical value.
pub ghost struct PersonView {
    pub id: usize,
    pub name: Seq<char>,
    pub email_address: Seq<char>,
    pub credit_card: Seq<char>,
    pub city: Seq<char>,
    pub state: Seq<char>,
    pub date_time: u64,
    pub extra: Seq<char>,
}

impl View for PyPerson {
    type V = PersonView;

    open spec fn view(&self) -> PersonView {
        PersonView {
            id: self.id,
            name: self.name@,
            email_address: self.email_address@,
            credit_card: self.credit_card@,
            city: self.city@,
            state: self.state@,
            date_time: self.date_time,
            extra: self.extra@,
        }
    }
}

impl Clone for PyPerson {
    fn clone(&self) -> (r: PyPerson)
        ensures
            r@ == self@,
    {
        PyPerson {
            id: self.id,
            name: self.name.clone(),
            email_address: self.email_address.clone(),
            credit_card: self.credit_card.clone(),
            city: self.city.clone(),
            state: self.state.clone(),
            date_time: self.date_time,
            extra: self.extra.clone(),
        }
    }
}

impl PersonView {
    /// The fields of a person, in their fixed order.
    pub open spec fn fields(self) -> Seq<(Seq<char>, JsonField)> {
        seq![
            ("id"@, JsonField::Number(self.id as u64)),
            ("name"@, JsonField::Text(self.name)),
            ("email_address"@, JsonField::Text(self.email_address)),
            ("credit_card"@, JsonField::Text(self.credit_card)),
            ("city"@, JsonField::Text(self.city)),
            ("state"@, JsonField::Text(self.state)),
            ("date_time"@, JsonField::Number(self.date_time)),
            ("extra"@, JsonField::Text(self.extra)),
        ]
    }

    /// The one-line summary of a person.
    pub open spec fn summary(self) -> Seq<char> {
        "Person(id="@ + decimal_digits(self.id as nat) + ", name='"@ + self.name + "', email='"@
            + self.email_address + "', city='"@ + self.city + "', state='"@ + self.state + "')"@
    }

    /// Whether a JSON object holds every field of a person, each with a
    /// value of its type.
    pub open spec fn decodes(fields: Map<Seq<char>, JsonField>) -> bool {
        &&& index_in(fields, "id"@) is Some
        &&& text_in(fields, "name"@) is Some
        &&& text_in(fields, "email_address"@) is Some
        &&& text_in(fields, "credit_card"@) is Some
        &&& text_in(fields, "city"@) is Some
        &&& text_in(fields, "state"@) is Some
        &&& number_in(fields, "date_time"@) is Some
        &&& text_in(fields, "extra"@) is Some
    }

    /// The person that a JSON object decodes to.
    pub open spec fn decoded(fields: Map<Seq<char>, JsonField>) -> PersonView
        recommends
            Self::decodes(fields),
    {
        PersonView {
            id: index_in(fields, "id"@).unwrap(),
            name: text_in(fields, "name"@).unwrap(),
            email_address: text_in(fields, "email_address"@).unwrap(),
            credit_card: text_in(fields, "credit_card"@).unwrap(),
            city: text_in(fields, "city"@).unwrap(),
            state: text_in(fields, "state"@).unwrap(),
            date_time: number_in(fields, "date_time"@).unwrap(),
            extra: text_in(fields, "extra"@).unwrap(),
        }
    }

    /// The first field of a person, in field order, that a JSON object
    /// lacks or holds with another type.
    pub open spec fn first_missing(fields: Map<Seq<char>, JsonField>) -> Seq<char>
        recommends
            !Self::decodes(fields),
    {
        if index_in(fields, "id"@) is None {
            "id"@
        } else if text_in(fields, "name"@) is None {
            "name"@
        } else if text_in(fields, "email_address"@) is None {
            "email_address"@
        } else if text_in(fields, "credit_card"@) is None {
            "credit_card"@
        } else if text_in(fields, "city"@) is None {
            "city"@
        } else if text_in(fields, "state"@) is None {
            "state"@
        } else if number_in(fields, "date_time"@) is None {
            "date_time"@
        } else {
            "extra"@
        }
    }

    /// What decoding a JSON object as a person must return: the person where
    /// every field is there, else the first field that is not.
    pub open spec fn decoding(
        fields: Map<Seq<char>, JsonField>,
        r: Result<PyPerson, DecodeError>,
    ) -> bool {
        match r {
            Ok(person) => Self::decodes(fields) && person@ == Self::decoded(fields),
            Err(error) => {
                &&& !Self::decodes(fields)
                &&& error matches DecodeError::Field(key)
                &&& key@ == Self::first_missing(fields)
            },
        }
    }
}

impl PyPerson {
    /// A person with the given fields.
    pub fn new(
        id: usize,
        name: String,
        email_address: String,
        credit_card: String,
        city: String,
        state: String,
        date_time: u64,
        extra: String,
    ) -> (r: PyPerson)
        ensures
            r@ == (PersonView {
                id,
                name: name@,
                email_address: email_address@,
                credit_card: credit_card@,
                city: city@,
                state: state@,
                date_time,
                extra: extra@,
            }),
    {
        PyPerson { id, name, email_address, credit_card, city, state, date_time, extra }
    }

    /// The one-line summary: id, name, email address, city and state.
    pub fn __repr__(&self) -> (r: String)
        ensures
            r@ == self@.summary(),
    {
        let mut line = "Person(id=".to_owned();
        line.append(decimal(self.id as u64).as_str());
        line.append(", name='");
        line.append(self.name.as_str());
        line.append("', email='");
        line.append(self.email_address.as_str());
        line.append("', city='");
        line.append(self.city.as_str());
        line.append("', state='");
        line.append(self.state.as_str());
        line.append("')");
        line
    }

    /// The fields of the person as a mapping, in their fixed order.
    pub fn to_dict(&self) -> (r: Vec<Entry>)
        ensures
            entries_view(r@) == self@.fields(),
    {
        let mut entries: Vec<Entry> = Vec::new();
        entries.push(Entry::number("id", self.id as u64));
        entries.push(Entry::text("name", &self.name));
        entries.push(Entry::text("email_address", &self.email_address));
        entries.push(Entry::text("credit_card", &self.credit_card));
        entries.push(Entry::text("city", &self.city));
        entries.push(Entry::text("state", &self.state));
        entries.push(Entry::number("date_time", self.date_time));
        entries.push(Entry::text("extra", &self.extra));
        assert(entries_view(entries@) =~= self@.fields());
        entries
    }

    /// The person as the text of one JSON object. Encoding never fails, and
    /// the text reads back as an object with exactly the fields of the person.
    pub fn to_json(&self) -> (r: Result<String, SerializationError>)
        ensures
            r matches Ok(text) && parsed_fields(text@) == Some(object_of(self@.fields())),
    {
        let entries = self.to_dict();
        JsonObject::from_entries(&entries).to_text()
    }

    /// Decodes a person from the text of a JSON object.
    pub fn from_json(json: &str) -> (r: Result<PyPerson, DecodeError>)
        ensures
            match parsed_fields(json@) {
                Some(fields) => PersonView::decoding(fields, r),
                None => r matches Err(DecodeError::Malformed(_)),
            },
    {
        match JsonObject::parse(json) {
            Ok(object) => PyPerson::from_object(&object),
            Err(error) => Err(error),
        }
    }

    /// Decodes a person from a JSON object. Members that are no field of
    /// a person are ignored.
    pub fn from_object(object: &JsonObject) -> (r: Result<PyPerson, DecodeError>)
        ensures
            PersonView::decoding(object@, r),
    {
        let id = match object.get_usize("id") {
            Some(id) => id,
            None => {
                return Err(DecodeError::Field("id".to_owned()));
            },
        };
        let name = match object.get_text("name") {
            Some(name) => name,
            None => {
                return Err(DecodeError::Field("name".to_owned()));
            },
        };
        let email_address = match object.get_text("email_address") {
            Some(email_address) => email_address,
            None => {
                return Err(DecodeError::Field("email_address".to_owned()));
            },
        };
        let credit_card = match object.get_text("credit_card") {
            Some(credit_card) => credit_card,
            None => {
                return Err(DecodeError::Field("credit_card".to_owned()));
            },
        };
        let city = match object.get_text("city") {
            Some(city) => city,
            None => {
                return Err(DecodeError::Field("city".to_owned()));
            },
        };
        let state = match object.get_text("state") {
            Some(state) => state,
            None => {
                return Err(DecodeError::Field("state".to_owned()));
            },
        };
        let date_time = match object.get_u64("date_time") {
            Some(date_time) => date_time,
            None => {
                return Err(DecodeError::Field("date_time".to_owned()));
            },
        };
        let extra = match object.get_text("extra") {
            Some(extra) => extra,
            None => {
                return Err(DecodeError::Field("extra".to_owned()));
            },
        };
        Ok(PyPerson { id, name, email_address, credit_card, city, state, date_time, extra })
    }
}

/// The JSON object of a person holds each of its eight fields under the
/// field's name, and nothing else.
pub proof fn person_object(person: PersonView)
    ensures
        object_of(person.fields()) == person_members(person),
{
    let f = person.fields();
    let e0 = Seq::<(Seq<char>, JsonField)>::empty();
    let e1 = e0.push(f[0]);
    let e2 = e1.push(f[1]);
    let e3 = e2.push(f[2]);
    let e4 = e3.push(f[3]);
    let e5 = e4.push(f[4]);
    let e6 = e5.push(f[5]);
    let e7 = e6.push(f[6]);
    let e8 = e7.push(f[7]);
    assert(e8 =~= f);
    object_of_push(e0, f[0].0, f[0].1);
    object_of_push(e1, f[1].0, f[1].1);
    object_of_push(e2, f[2].0, f[2].1);
    object_of_push(e3, f[3].0, f[3].1);
    object_of_push(e4, f[4].0, f[4].1);
    object_of_push(e5, f[5].0, f[5].1);
    object_of_push(e6, f[6].0, f[6].1);
    object_of_push(e7, f[7].0, f[7].1);
}

/// The members of the JSON object of a person, written out.
pub open spec fn person_members(person: PersonView) -> Map<Seq<char>, JsonField> {
    Map::empty()
        .insert("id"@, JsonField::Number(person.id as u64))
        .insert("name"@, JsonField::Text(person.name))
        .insert("email_address"@, JsonField::Text(person.email_address))
        .insert("credit_card"@, JsonField::Text(person.credit_card))
        .insert("city"@, JsonField::Text(person.city))
        .insert("state"@, JsonField::Text(person.state))
        .insert("date_time"@, JsonField::Number(person.date_time))
        .insert("extra"@, JsonField::Text(person.extra))
}

/// No two fields of a person share a name.
pub proof fn person_fields_distinct(person: PersonView)
    ensures
        distinct_keys(person.fields()),
{
    field_name_shapes();
}

/// The mapping of a person and the JSON object of a person hold the same
/// keys with the same values.
pub proof fn person_mapping_fidelity(person: PersonView)
    ensures
        same_fields(person.fields(), object_of(person.fields())),
{
    person_fields_distinct(person);
    object_holds_mapping(person.fields());
}

/// Decoding the JSON object of a person gives the person back, field for
/// field.
pub proof fn person_round_trip(person: PersonView)
    ensures
        PersonView::decodes(object_of(person.fields())),
        PersonView::decoded(object_of(person.fields())) == person,
{
    person_object(person);
    field_name_shapes();
}

} // verus!
