//! The JSON answers of the server, and the values read from them.

use vstd::prelude::*;
use vstd::string::*;
use crate::text::same_text;

verus! {

/// A JSON value as the answers carry it. Numbers that are integers within
/// `i64` are kept; any other number (a fraction, or an integer beyond `i64`)
/// is only known to be a number.
pub enum JsonValue {
    Null,
    Bool(bool),
    Int(i64),
    OtherNumber,
    Str(String),
    Array(Vec<JsonValue>),
    Object(Vec<(String, JsonValue)>),
}

/// The value stored under `key` among `entries` (the first one, should a key
/// repeat).
pub open spec fn entry_value(entries: Seq<(String, JsonValue)>, key: Seq<char>) -> Option<
    JsonValue,
>
    decreases entries.len(),
{
    if entries.len() == 0 {
        None
    } else if entries[0].0@ == key {
        Some(entries[0].1)
    } else {
        entry_value(entries.drop_first(), key)
    }
}

impl JsonValue {
    /// The member `key` of an object; nothing for anything else.
    pub open spec fn spec_member(self, key: Seq<char>) -> Option<JsonValue> {
        match self {
            JsonValue::Object(entries) => entry_value(entries@, key),
            _ => None,
        }
    }

    /// The element at `index` of an array; nothing for anything else.
    pub open spec fn spec_element(self, index: int) -> Option<JsonValue> {
        match self {
            JsonValue::Array(items) => if 0 <= index < items@.len() {
                Some(items@[index])
            } else {
                None
            },
            _ => None,
        }
    }

    /// The text of a string; nothing for anything else.
    pub open spec fn spec_text(self) -> Option<Seq<char>> {
        match self {
            JsonValue::Str(s) => Some(s@),
            _ => None,
        }
    }

    /// The value of an integer within `i64`; nothing for anything else.
    pub open spec fn spec_integer(self) -> Option<i64> {
        match self {
            JsonValue::Int(n) => Some(n),
            _ => None,
        }
    }

    /// The member `key` of an object.
    pub fn member(&self, key: &str) -> (r: Option<&JsonValue>)
        ensures
            match r {
                Some(v) => self.spec_member(key@) == Some(*v),
                None => self.spec_member(key@) is None,
            },
    {
        match self {
            JsonValue::Object(entries) => {
                let n = entries.len();
                let mut i: usize = 0;
                assert(entries@.skip(0) =~= entries@);
                while i < n
                    invariant
                        n == entries@.len(),
                        i <= n,
                        self.spec_member(key@) == entry_value(entries@, key@),
                        entry_value(entries@, key@) == entry_value(entries@.skip(i as int), key@),
                    decreases n - i,
                {
                    assert(entries@.skip(i as int).drop_first() =~= entries@.skip(i + 1));
                    if same_text(entries[i].0.as_str(), key) {
                        return Some(&entries[i].1);
                    }
                    i = i + 1;
                }
                None
            },
            _ => None,
        }
    }

    /// The element at `index` of an array.
    pub fn element(&self, index: usize) -> (r: Option<&JsonValue>)
        ensures
            match r {
                Some(v) => self.spec_element(index as int) == Some(*v),
                None => self.spec_element(index as int) is None,
            },
    {
        match self {
            JsonValue::Array(items) => {
                if index < items.len() {
                    Some(&items[index])
                } else {
                    None
                }
            },
            _ => None,
        }
    }

    /// The text of a string.
    pub fn text(&self) -> (r: Option<String>)
        ensures
            match r {
                Some(s) => self.spec_text() == Some(s@),
                None => self.spec_text() is None,
            },
    {
        match self {
            JsonValue::Str(s) => Some(s.clone()),
            _ => None,
        }
    }

    /// The value of an integer within `i64`.
    pub fn integer(&self) -> (r: Option<i64>)
        ensures
            r == self.spec_integer(),
    {
        match self {
            JsonValue::Int(n) => Some(*n),
            _ => None,
        }
    }
}

/// The member `key` of an optional value.
pub open spec fn member_of(v: Option<JsonValue>, key: Seq<char>) -> Option<JsonValue> {
    match v {
        Some(j) => j.spec_member(key),
        None => None,
    }
}

/// The message of a redeem answer: the text at
/// `/data/hachikoRedeem/redeemMessage`.
pub open spec fn redeem_message_of(body: JsonValue) -> Option<Seq<char>> {
    match member_of(member_of(body.spec_member("data"@), "hachikoRedeem"@), "redeemMessage"@) {
        Some(m) => m.spec_text(),
        None => None,
    }
}

/// The catalog id of a catalog lookup answer: the integer at
/// `[0].data.hachikoCatalogDetail.id`.
pub open spec fn catalog_id_of(body: JsonValue) -> Option<i64> {
    match member_of(member_of(member_of(body.spec_element(0), "data"@), "hachikoCatalogDetail"@), "id"@) {
        Some(id) => id.spec_integer(),
        None => None,
    }
}

/// An object holding exactly one member.
pub open spec fn single_member(v: JsonValue, key: Seq<char>, value: JsonValue) -> bool {
    v matches JsonValue::Object(entries) && entries@.len() == 1 && entries@[0].0@ == key
        && entries@[0].1 == value
}

/// The redeem message is the text under `data`, then `hachikoRedeem`, then
/// `redeemMessage`: an answer `{"data": {"hachikoRedeem": {"redeemMessage":
/// m}}}` gives `m`, and any other text there gives that text.
pub proof fn lemma_redeem_message_path(body: JsonValue, data: JsonValue, redeem: JsonValue, m: JsonValue)
    requires
        single_member(body, "data"@, data),
        single_member(data, "hachikoRedeem"@, redeem),
        single_member(redeem, "redeemMessage"@, m),
    ensures
        redeem_message_of(body) == m.spec_text(),
{
    assert(entry_value(body->Object_0@, "data"@) == Some(data));
    assert(entry_value(data->Object_0@, "hachikoRedeem"@) == Some(redeem));
    assert(entry_value(redeem->Object_0@, "redeemMessage"@) == Some(m));
}

/// The catalog id is the integer under the first element, then `data`, then
/// `hachikoCatalogDetail`, then `id`: `[{"data": {"hachikoCatalogDetail":
/// {"id": n}}}]` gives `n` when it is an integer within `i64`.
pub proof fn lemma_catalog_id_path(
    body: JsonValue,
    first: JsonValue,
    data: JsonValue,
    detail: JsonValue,
    id: JsonValue,
)
    requires
        body matches JsonValue::Array(items) && items@.len() >= 1 && items@[0] == first,
        single_member(first, "data"@, data),
        single_member(data, "hachikoCatalogDetail"@, detail),
        single_member(detail, "id"@, id),
    ensures
        catalog_id_of(body) == id.spec_integer(),
{
    assert(entry_value(first->Object_0@, "data"@) == Some(data));
    assert(entry_value(data->Object_0@, "hachikoCatalogDetail"@) == Some(detail));
    assert(entry_value(detail->Object_0@, "id"@) == Some(id));
}

/// The message the server gave to a redeem request, if it holds one.
pub fn redeem_message(body: &JsonValue) -> (r: Option<String>)
    ensures
        match r {
            Some(m) => redeem_message_of(*body) == Some(m@),
            None => redeem_message_of(*body) is None,
        },
{
    let data = match body.member("data") {
        Some(d) => d,
        None => return None,
    };
    let redeem = match data.member("hachikoRedeem") {
        Some(d) => d,
        None => return None,
    };
    match redeem.member("redeemMessage") {
        Some(m) => m.text(),
        None => None,
    }
}

/// The catalog id found in the answer to a catalog lookup, if it holds one.
pub fn catalog_id(body: &JsonValue) -> (r: Option<i64>)
    ensures
        r == catalog_id_of(*body),
{
    let first = match body.element(0) {
        Some(d) => d,
        None => return None,
    };
    let data = match first.member("data") {
        Some(d) => d,
        None => return None,
    };
    let detail = match data.member("hachikoCatalogDetail") {
        Some(d) => d,
        None => return None,
    };
    match detail.member("id") {
        Some(id) => id.integer(),
        None => None,
    }
}

} // verus!
