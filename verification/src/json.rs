//! Flat JSON objects, read and written by `serde_json`.
//!
//! Everything the rest of the crate knows about JSON text comes from the
//! contracts in this module. An object is modelled by the fields it holds:
//! a map from each key to a [`JsonField`]. Which texts are JSON objects, and
//! which members they hold, is for `serde_json` to say; where a text gives
//! a key twice, its parser keeps the later member.

use vstd::prelude::*;
use crate::error::DecodeError;
use crate::error::SerializationError;
use crate::mapping::Entry;
use crate::mapping::FieldValue;
use crate::mapping::entries_view;
use crate::mapping::object_of;

verus! {

/// What one member of a JSON object holds, as far as this crate reads it.
pub ghost enum JsonField {
    /// A non-negative integer that fits in 64 bits.
    Number(u64),
    /// A string.
    Text(Seq<char>),
    /// Any other JSON value: null, a boolean, a negative or fractional
    /// number, an array or an object.
    Other,
}

/// `serde_json::Value`, any JSON value. Opaque here.
#[verifier::external_type_specification]
#[verifier::external_body]
pub struct ExValue(serde_json::Value);

/// `serde_json::Map`, the members of a JSON object. Opaque here: what it
/// holds is named by `object_fields`.
#[verifier::external_type_specification]
#[verifier::external_body]
#[verifier::reject_recursive_types(K)]
#[verifier::reject_recursive_types(V)]
pub struct ExObject<K, V>(serde_json::Map<K, V>);

/// `serde_json::Error`, a failure of the parser or the encoder. Opaque
/// here.
#[verifier::external_type_specification]
#[verifier::external_body]
pub struct ExJsonError(serde_json::Error);

/// The members of a `serde_json::Map`: for each key the map holds, the
/// field stored under it. A value is a `Number` where `Value::as_u64` gives
/// a number, a `Text` where `Value::as_str` gives a string, and `Other`
/// where neither does.
pub uninterp spec fn object_fields(object: serde_json::Map<String, serde_json::Value>) -> Map<
    Seq<char>,
    JsonField,
>;

/// What `serde_json::from_str` reads from a text as a JSON object: the
/// members of the object, or `None` where the text is not one JSON object.
pub uninterp spec fn parsed_fields(text: Seq<char>) -> Option<Map<Seq<char>, JsonField>>;

/// `serde_json::from_str` at `serde_json::Map<String, Value>`. It succeeds
/// exactly on the texts that `parsed_fields` reads, and the map it returns
/// holds the members that `parsed_fields` gives.
#[verifier::external_body]
fn read_object(text: &str) -> (r: Result<
    serde_json::Map<String, serde_json::Value>,
    serde_json::Error,
>)
    ensures
        match r {
            Ok(object) => parsed_fields(text@) == Some(object_fields(object)),
            Err(_) => parsed_fields(text@) is None,
        },
{
    serde_json::from_str(text)
}

/// `serde_json::to_string` on a map whose members are numbers and strings.
/// It succeeds: it fails only with its writer, here a `Vec<u8>`, or on a key
/// that is no string. The text it wrote is read back by
/// `serde_json::from_str` with the same members. A map that holds nested
/// values is left out: the parser gives up at a depth at which the encoder
/// still writes.
#[verifier::external_body]
fn write_object(object: &serde_json::Map<String, serde_json::Value>) -> (r: Result<
    String,
    serde_json::Error,
>)
    requires
        only_scalars(object_fields(*object)),
    ensures
        r is Ok,
        r matches Ok(text) ==> parsed_fields(text@) == Some(object_fields(*object)),
{
    serde_json::to_string(object)
}

/// `serde_json::Map::new`: a map without members.
#[verifier::external_body]
fn empty_object() -> (r: serde_json::Map<String, serde_json::Value>)
    ensures
        object_fields(r) == no_fields(),
{
    serde_json::Map::new()
}

/// `serde_json::Map::insert` with a number made by `Value::from`: the key
/// now holds that number, whatever it held before, and the other members
/// are untouched.
#[verifier::external_body]
fn insert_number(object: &mut serde_json::Map<String, serde_json::Value>, key: &str, number: u64)
    ensures
        object_fields(*final(object)) == object_fields(*old(object)).insert(
            key@,
            JsonField::Number(number),
        ),
{
    object.insert(key.to_owned(), serde_json::Value::from(number));
}

/// `serde_json::Map::insert` with a string made by `Value::from`: the key
/// now holds that string, whatever it held before, and the other members
/// are untouched.
#[verifier::external_body]
fn insert_text(object: &mut serde_json::Map<String, serde_json::Value>, key: &str, text: &str)
    ensures
        object_fields(*final(object)) == object_fields(*old(object)).insert(
            key@,
            JsonField::Text(text@),
        ),
{
    object.insert(key.to_owned(), serde_json::Value::from(text));
}

/// `serde_json::Map::get` followed by `Value::as_u64`: the number under the
/// key, where the key is there and holds a non-negative integer of 64 bits.
#[verifier::external_body]
fn number_at(object: &serde_json::Map<String, serde_json::Value>, key: &str) -> (r: Option<u64>)
    ensures
        r == number_in(object_fields(*object), key@),
{
    object.get(key).and_then(serde_json::Value::as_u64)
}

/// `serde_json::Map::get` followed by `Value::as_str`: a copy of the string
/// under the key, where the key is there and holds a string.
#[verifier::external_body]
fn text_at(object: &serde_json::Map<String, serde_json::Value>, key: &str) -> (r: Option<String>)
    ensures
        match r {
            Some(text) => text_in(object_fields(*object), key@) == Some(text@),
            None => text_in(object_fields(*object), key@) is None,
        },
{
    object.get(key).and_then(serde_json::Value::as_str).map(str::to_owned)
}

/// The fields of an object without members.
pub open spec fn no_fields() -> Map<Seq<char>, JsonField> {
    Map::empty()
}

/// Whether every member of a set of fields is a number or a string.
pub open spec fn only_scalars(fields: Map<Seq<char>, JsonField>) -> bool {
    forall|key: Seq<char>| fields.contains_key(key) ==> !(#[trigger] fields[key] is Other)
}

/// The number that a set of fields holds under a key, if it holds one.
pub open spec fn number_in(fields: Map<Seq<char>, JsonField>, key: Seq<char>) -> Option<u64> {
    if fields.contains_key(key) {
        match fields[key] {
            JsonField::Number(number) => Some(number),
            _ => None,
        }
    } else {
        None
    }
}

/// The string that a set of fields holds under a key, if it holds one.
pub open spec fn text_in(fields: Map<Seq<char>, JsonField>, key: Seq<char>) -> Option<Seq<char>> {
    if fields.contains_key(key) {
        match fields[key] {
            JsonField::Text(text) => Some(text),
            _ => None,
        }
    } else {
        None
    }
}

/// The index that a set of fields holds under a key: a number that fits in
/// `usize`.
pub open spec fn index_in(fields: Map<Seq<char>, JsonField>, key: Seq<char>) -> Option<usize> {
    match number_in(fields, key) {
        Some(number) => if number <= usize::MAX {
            Some(number as usize)
        } else {
            None
        },
        None => None,
    }
}

/// `Display` of `serde_json::Error`, through `to_string`: the message of a
/// parser or encoder failure. Nothing is claimed of its wording.
#[verifier::external_body]
fn describe(error: &serde_json::Error) -> String {
    error.to_string()
}

/// A flat JSON object.
pub struct JsonObject {
    members: serde_json::Map<String, serde_json::Value>,
}

impl View for JsonObject {
    type V = Map<Seq<char>, JsonField>;

    closed spec fn view(&self) -> Map<Seq<char>, JsonField> {
        object_fields(self.members)
    }
}

impl JsonObject {
    /// An object without members.
    pub fn new() -> (r: JsonObject)
        ensures
            r@ == no_fields(),
    {
        JsonObject { members: empty_object() }
    }

    /// Reads a text as one JSON object.
    pub fn parse(text: &str) -> (r: Result<JsonObject, DecodeError>)
        ensures
            match parsed_fields(text@) {
                Some(fields) => r matches Ok(object) && object@ == fields,
                None => r matches Err(DecodeError::Malformed(_)),
            },
    {
        Self::parsed(read_object(text))
    }

    /// Turns the parser's outcome into an object or a decode error.
    pub fn parsed(
        outcome: Result<serde_json::Map<String, serde_json::Value>, serde_json::Error>,
    ) -> (r: Result<JsonObject, DecodeError>)
        ensures
            match outcome {
                Ok(members) => r matches Ok(object) && object@ == object_fields(members),
                Err(_) => r matches Err(DecodeError::Malformed(_)),
            },
    {
        match outcome {
            Ok(members) => Ok(JsonObject { members }),
            Err(error) => Err(DecodeError::Malformed(describe(&error))),
        }
    }

    /// Writes an object of numbers and strings as JSON text. Writing never
    /// fails, and the text reads back as this object.
    pub fn to_text(&self) -> (r: Result<String, SerializationError>)
        requires
            only_scalars(self@),
        ensures
            r matches Ok(text) && parsed_fields(text@) == Some(self@),
    {
        Self::written(write_object(&self.members))
    }

    /// Turns the encoder's outcome into the text or a serialization error.
    pub fn written(outcome: Result<String, serde_json::Error>) -> (r: Result<
        String,
        SerializationError,
    >)
        ensures
            match outcome {
                Ok(text) => r matches Ok(same) && same == text,
                Err(_) => r is Err,
            },
    {
        match outcome {
            Ok(text) => Ok(text),
            Err(error) => Err(SerializationError { message: describe(&error) }),
        }
    }

    /// The number under a key.
    pub fn get_u64(&self, key: &str) -> (r: Option<u64>)
        ensures
            r == number_in(self@, key@),
    {
        number_at(&self.members, key)
    }

    /// The number under a key, where it fits in `usize`.
    pub fn get_usize(&self, key: &str) -> (r: Option<usize>)
        ensures
            r == index_in(self@, key@),
    {
        match number_at(&self.members, key) {
            Some(number) => if number <= usize::MAX as u64 {
                Some(number as usize)
            } else {
                None
            },
            None => None,
        }
    }

    /// A copy of the string under a key.
    pub fn get_text(&self, key: &str) -> (r: Option<String>)
        ensures
            match r {
                Some(text) => text_in(self@, key@) == Some(text@),
                None => text_in(self@, key@) is None,
            },
    {
        text_at(&self.members, key)
    }

    /// Stores a number under a key.
    pub fn set_number(&mut self, key: &str, number: u64)
        ensures
            final(self)@ == old(self)@.insert(key@, JsonField::Number(number)),
    {
        insert_number(&mut self.members, key, number);
    }

    /// Stores a string under a key.
    pub fn set_text(&mut self, key: &str, text: &str)
        ensures
            final(self)@ == old(self)@.insert(key@, JsonField::Text(text@)),
    {
        insert_text(&mut self.members, key, text);
    }

    /// The object that holds the fields of a mapping: numbers and strings
    /// only.
    pub fn from_entries(entries: &Vec<Entry>) -> (r: JsonObject)
        ensures
            r@ == object_of(entries_view(entries@)),
            only_scalars(r@),
    {
        let mut object = JsonObject::new();
        let mut i: usize = 0;
        while i < entries.len()
            invariant
                i <= entries.len(),
                object@ == object_of(entries_view(entries@).take(i as int)),
                only_scalars(object@),
            decreases entries.len() - i,
        {
            let entry = &entries[i];
            match &entry.value {
                FieldValue::Number(number) => object.set_number(entry.key.as_str(), *number),
                FieldValue::Text(text) => object.set_text(entry.key.as_str(), text.as_str()),
            }
            proof {
                let all = entries_view(entries@);
                assert(all.take(i + 1).drop_last() =~= all.take(i as int));
                assert(all.take(i + 1).last() == entries[i as int]@);
            }
            i = i + 1;
        }
        proof {
            let all = entries_view(entries@);
            assert(all.take(entries.len() as int) =~= all);
        }
        object
    }
}

} // verus!
