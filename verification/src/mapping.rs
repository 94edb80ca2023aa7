//! The key-value projection of a record: its fields in their fixed order.

use vstd::prelude::*;
use crate::json::JsonField;

verus! {

/// The value of one field of a record.
#[derive(Debug)]
pub enum FieldValue {
    Number(u64),
    Text(String),
}

impl View for FieldValue {
    type V = JsonField;

    open spec fn view(&self) -> JsonField {
        match self {
            FieldValue::Number(number) => JsonField::Number(*number),
            FieldValue::Text(text) => JsonField::Text(text@),
        }
    }
}

/// One field of a record: its name and its value.
#[derive(Debug)]
pub struct Entry {
    pub key: String,
    pub value: FieldValue,
}

impl View for Entry {
    type V = (Seq<char>, JsonField);

    open spec fn view(&self) -> (Seq<char>, JsonField) {
        (self.key@, self.value@)
    }
}

impl Entry {
    /// A field that holds a number.
    pub fn number(key: &str, number: u64) -> (r: Entry)
        ensures
            r@ == (key@, JsonField::Number(number)),
    {
        Entry { key: key.to_owned(), value: FieldValue::Number(number) }
    }

    /// A field that holds a copy of a text.
    pub fn text(key: &str, text: &String) -> (r: Entry)
        ensures
            r@ == (key@, JsonField::Text(text@)),
    {
        Entry { key: key.to_owned(), value: FieldValue::Text(text.clone()) }
    }
}

/// The fields of a mapping, each by its view.
pub open spec fn entries_view(entries: Seq<Entry>) -> Seq<(Seq<char>, JsonField)> {
    Seq::new(entries.len(), |i: int| entries[i]@)
}

/// The JSON object that holds the fields of a mapping: each key with its
/// value, a later field replacing an earlier one of the same key.
pub open spec fn object_of(entries: Seq<(Seq<char>, JsonField)>) -> Map<Seq<char>, JsonField>
    decreases entries.len(),
{
    if entries.len() == 0 {
        Map::empty()
    } else {
        object_of(entries.drop_last()).insert(entries.last().0, entries.last().1)
    }
}

/// Whether no two fields of a mapping share a key.
pub open spec fn distinct_keys(entries: Seq<(Seq<char>, JsonField)>) -> bool {
    forall|i: int, j: int| 0 <= i < j < entries.len() ==> entries[i].0 != entries[j].0
}

/// Adding one field to a mapping stores it in the object.
pub proof fn object_of_push(entries: Seq<(Seq<char>, JsonField)>, key: Seq<char>, value: JsonField)
    ensures
        object_of(entries.push((key, value))) == object_of(entries).insert(key, value),
{
    assert(entries.push((key, value)).drop_last() =~= entries);
}

/// Whether a mapping and a JSON object hold the same keys with the same
/// values.
pub open spec fn same_fields(
    entries: Seq<(Seq<char>, JsonField)>,
    object: Map<Seq<char>, JsonField>,
) -> bool {
    &&& forall|i: int|
        #![trigger entries[i]]
        0 <= i < entries.len() ==> object.contains_key(entries[i].0) && object[entries[i].0]
            == entries[i].1
    &&& forall|key: Seq<char>|
        object.contains_key(key) ==> exists|i: int|
            #![trigger entries[i]]
            0 <= i < entries.len() && entries[i].0 == key
}

/// The object of a mapping without a repeated key holds each field of the
/// mapping under its key, and no other key.
pub proof fn object_holds_mapping(entries: Seq<(Seq<char>, JsonField)>)
    requires
        distinct_keys(entries),
    ensures
        same_fields(entries, object_of(entries)),
    decreases entries.len(),
{
    if entries.len() > 0 {
        let head = entries.drop_last();
        let last = entries.last();
        object_holds_mapping(head);
        assert forall|i: int| 0 <= i < entries.len() implies object_of(entries).contains_key(
            (#[trigger] entries[i]).0,
        ) && object_of(entries)[entries[i].0] == entries[i].1 by {
            if i < entries.len() - 1 {
                assert(head[i] == entries[i]);
                assert(entries[i].0 != last.0);
            }
        }
        assert forall|key: Seq<char>| object_of(entries).contains_key(key) implies exists|i: int|
            #![trigger entries[i]]
            0 <= i < entries.len() && entries[i].0 == key by {
            if key == last.0 {
                assert(entries[entries.len() - 1].0 == key);
            } else {
                assert(object_of(head).contains_key(key));
                let i = choose|i: int| #![trigger head[i]] 0 <= i < head.len() && head[i].0 == key;
                assert(entries[i].0 == key);
            }
        }
    }
}

/// The field names of the three records differ from one another within
/// each record: by length, or else by their first letter.
pub proof fn field_name_shapes()
    ensures
        "id"@.len() == 2,
        "name"@.len() == 4 && "name"@[0] == 'n',
        "email_address"@.len() == 13,
        "credit_card"@.len() == 11,
        "city"@.len() == 4 && "city"@[0] == 'c',
        "state"@.len() == 5 && "state"@[0] == 's',
        "date_time"@.len() == 9 && "date_time"@[0] == 'd',
        "extra"@.len() == 5 && "extra"@[0] == 'e',
        "item_name"@.len() == 9 && "item_name"@[0] == 'i',
        "description"@.len() == 11 && "description"@[0] == 'd',
        "initial_bid"@.len() == 11 && "initial_bid"@[0] == 'i',
        "reserve"@.len() == 7 && "reserve"@[0] == 'r',
        "expires"@.len() == 7 && "expires"@[0] == 'e',
        "seller"@.len() == 6 && "seller"@[0] == 's',
        "category"@.len() == 8,
        "auction"@.len() == 7 && "auction"@[0] == 'a',
        "bidder"@.len() == 6 && "bidder"@[0] == 'b',
        "price"@.len() == 5 && "price"@[0] == 'p',
        "channel"@.len() == 7 && "channel"@[0] == 'c',
        "url"@.len() == 3,
{
    reveal_strlit("id");
    reveal_strlit("name");
    reveal_strlit("email_address");
    reveal_strlit("credit_card");
    reveal_strlit("city");
    reveal_strlit("state");
    reveal_strlit("date_time");
    reveal_strlit("extra");
    reveal_strlit("item_name");
    reveal_strlit("description");
    reveal_strlit("initial_bid");
    reveal_strlit("reserve");
    reveal_strlit("expires");
    reveal_strlit("seller");
    reveal_strlit("category");
    reveal_strlit("auction");
    reveal_strlit("bidder");
    reveal_strlit("price");
    reveal_strlit("channel");
    reveal_strlit("url");
}

} // verus!
