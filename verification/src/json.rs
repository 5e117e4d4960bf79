//! JSON values as the library reads and writes them, and the reading of
//! JSON text.

use crate::text::{same_text, texts};
use vstd::prelude::*;

verus! {

/// A JSON value.
#[derive(Debug, PartialEq)]
pub enum Json {
    Null,
    Bool(bool),
    /// A number: its value where it is a whole number that fits in 64 bits
    /// with a sign, and nothing otherwise.
    Number(Option<i64>),
    Text(String),
    Array(Vec<Json>),
    /// An object: its members, each a key and a value.
    Object(Vec<(String, Json)>),
}

/// What a JSON value holds.
pub enum JsonValue {
    Null,
    Bool(bool),
    Number(Option<int>),
    Text(Seq<char>),
    Array(Seq<JsonValue>),
    Object(Seq<(Seq<char>, JsonValue)>),
}

/// The value of a number, where it has one.
pub open spec fn number_view(number: Option<i64>) -> Option<int> {
    match number {
        Some(n) => Some(n as int),
        None => None,
    }
}

/// What `json` holds.
pub open spec fn json_value(json: Json) -> JsonValue
    decreases json, 0nat,
{
    match json {
        Json::Null => JsonValue::Null,
        Json::Bool(b) => JsonValue::Bool(b),
        Json::Number(n) => JsonValue::Number(number_view(n)),
        Json::Text(s) => JsonValue::Text(s@),
        Json::Array(items) => JsonValue::Array(first_values(items, items@.len())),
        Json::Object(members) => JsonValue::Object(first_members(members, members@.len())),
    }
}

/// What the first `n` of `items` hold.
pub open spec fn first_values(items: Vec<Json>, n: nat) -> Seq<JsonValue>
    decreases items, n,
{
    if n == 0 || n > items@.len() {
        Seq::empty()
    } else {
        first_values(items, (n - 1) as nat).push(json_value(items@[n - 1]))
    }
}

/// What the first `n` of `members` hold.
pub open spec fn first_members(members: Vec<(String, Json)>, n: nat) -> Seq<
    (Seq<char>, JsonValue),
>
    decreases members, n,
{
    if n == 0 || n > members@.len() {
        Seq::empty()
    } else {
        first_members(members, (n - 1) as nat).push(
            (members@[n - 1].0@, json_value(members@[n - 1].1)),
        )
    }
}

impl View for Json {
    type V = JsonValue;

    open spec fn view(&self) -> JsonValue {
        json_value(*self)
    }
}

impl DeepView for Json {
    type V = JsonValue;

    open spec fn deep_view(&self) -> JsonValue {
        self@
    }
}

/// What each of `items` holds.
pub open spec fn items_view(items: Seq<Json>) -> Seq<JsonValue> {
    Seq::new(items.len(), |i: int| items[i]@)
}

/// What each of `members` holds.
pub open spec fn members_view(members: Seq<(String, Json)>) -> Seq<(Seq<char>, JsonValue)> {
    Seq::new(members.len(), |i: int| (members[i].0@, members[i].1@))
}

/// What a JSON value that may be missing holds.
pub open spec fn option_json(json: Option<Json>) -> Option<JsonValue> {
    match json {
        Some(value) => Some(value@),
        None => None,
    }
}

proof fn lemma_first_values(items: Vec<Json>, n: nat)
    requires
        n <= items@.len(),
    ensures
        first_values(items, n) == items_view(items@.take(n as int)),
    decreases n,
{
    if n > 0 {
        lemma_first_values(items, (n - 1) as nat);
    }
    assert(first_values(items, n) =~= items_view(items@.take(n as int)));
}

proof fn lemma_first_members(members: Vec<(String, Json)>, n: nat)
    requires
        n <= members@.len(),
    ensures
        first_members(members, n) == members_view(members@.take(n as int)),
    decreases n,
{
    if n > 0 {
        lemma_first_members(members, (n - 1) as nat);
    }
    assert(first_members(members, n) =~= members_view(members@.take(n as int)));
}

/// An array holds what its items hold.
pub proof fn lemma_array_view(items: Vec<Json>)
    ensures
        Json::Array(items)@ == JsonValue::Array(items_view(items@)),
{
    lemma_first_values(items, items@.len());
    assert(items@.take(items@.len() as int) =~= items@);
}

/// An object holds what its members hold.
pub proof fn lemma_object_view(members: Vec<(String, Json)>)
    ensures
        Json::Object(members)@ == JsonValue::Object(members_view(members@)),
{
    lemma_first_members(members, members@.len());
    assert(members@.take(members@.len() as int) =~= members@);
}

/// `serde_json::Value`, which the reading of JSON text hands over to be
/// turned into the library's own.
#[verifier::external_type_specification]
#[verifier::external_body]
pub struct ExValue(serde_json::Value);

/// What the text holds as JSON, where it is well-formed JSON.
pub uninterp spec fn json_of_text(text: Seq<char>) -> Option<JsonValue>;

/// The value that `members` give for `key`: that of the first member with
/// that key.
pub open spec fn member_of(members: Seq<(Seq<char>, JsonValue)>, key: Seq<char>) -> Option<
    JsonValue,
>
    decreases members.len(),
{
    if members.len() == 0 {
        None
    } else if members[0].0 == key {
        Some(members[0].1)
    } else {
        member_of(members.drop_first(), key)
    }
}

/// The texts that `items` are, where each of them is a text.
pub open spec fn texts_of(items: Seq<JsonValue>) -> Option<Seq<Seq<char>>>
    decreases items.len(),
{
    if items.len() == 0 {
        Some(Seq::empty())
    } else {
        match (texts_of(items.drop_last()), items.last().text()) {
            (Some(before), Some(last)) => Some(before.push(last)),
            _ => None,
        }
    }
}

/// The array of the texts `list`.
pub open spec fn array_of_texts(list: Seq<Seq<char>>) -> JsonValue {
    JsonValue::Array(Seq::new(list.len(), |i: int| JsonValue::Text(list[i])))
}

impl JsonValue {
    /// The member of an object with the key `key`.
    pub open spec fn member(self, key: Seq<char>) -> Option<JsonValue> {
        match self {
            JsonValue::Object(members) => member_of(members, key),
            _ => None,
        }
    }

    /// The characters of a text.
    pub open spec fn text(self) -> Option<Seq<char>> {
        match self {
            JsonValue::Text(s) => Some(s),
            _ => None,
        }
    }

    /// The value of a whole number.
    pub open spec fn integer(self) -> Option<int> {
        match self {
            JsonValue::Number(Some(n)) => Some(n),
            _ => None,
        }
    }

    /// The items of an array.
    pub open spec fn items(self) -> Option<Seq<JsonValue>> {
        match self {
            JsonValue::Array(items) => Some(items),
            _ => None,
        }
    }

    /// The text that an object holds under `key`.
    pub open spec fn text_member(self, key: Seq<char>) -> Option<Seq<char>> {
        match self.member(key) {
            Some(value) => value.text(),
            None => None,
        }
    }

    /// The whole number that an object holds under `key`.
    pub open spec fn integer_member(self, key: Seq<char>) -> Option<int> {
        match self.member(key) {
            Some(value) => value.integer(),
            None => None,
        }
    }

    /// The items that an object holds under `key`.
    pub open spec fn items_member(self, key: Seq<char>) -> Option<Seq<JsonValue>> {
        match self.member(key) {
            Some(value) => value.items(),
            None => None,
        }
    }

    /// The texts of an array of texts.
    pub open spec fn text_list(self) -> Option<Seq<Seq<char>>> {
        match self.items() {
            Some(items) => texts_of(items),
            None => None,
        }
    }

    /// The array of texts that an object holds under `key`.
    pub open spec fn text_list_member(self, key: Seq<char>) -> Option<Seq<Seq<char>>> {
        match self.member(key) {
            Some(value) => value.text_list(),
            None => None,
        }
    }
}

/// Where one of `items` is no text, they are not a list of texts.
pub proof fn lemma_texts_of_needs_texts(items: Seq<JsonValue>, at: int)
    requires
        0 <= at < items.len(),
        items[at].text() is None,
    ensures
        texts_of(items) is None,
    decreases items.len(),
{
    if at < items.len() - 1 {
        lemma_texts_of_needs_texts(items.drop_last(), at);
    }
}

/// Read as a list of texts, the array of a list of texts gives that list.
pub proof fn lemma_texts_of_array(list: Seq<Seq<char>>)
    ensures
        array_of_texts(list).text_list() == Some(list),
    decreases list.len(),
{
    let items = array_of_texts(list)->Array_0;
    if list.len() == 0 {
        assert(list =~= Seq::<Seq<char>>::empty());
    } else {
        lemma_texts_of_array(list.drop_last());
        assert(items.drop_last() =~= array_of_texts(list.drop_last())->Array_0);
        assert(list.drop_last().push(list.last()) =~= list);
    }
}

impl Json {
    /// The member of an object with the key `key`.
    pub fn get(&self, key: &str) -> (out: Option<&Json>)
        ensures
            match out {
                Some(value) => self@.member(key@) == Some(value@),
                None => self@.member(key@) is None,
            },
    {
        match self {
            Json::Object(members) => {
                let ghost all = members_view(members@);
                let mut i: usize = 0;
                proof {
                    lemma_object_view(*members);
                    assert(all.subrange(0, members.len() as int) =~= all);
                }
                while i < members.len()
                    invariant
                        i <= members.len(),
                        all == members_view(members@),
                        self@.member(key@) == member_of(all, key@),
                        member_of(all, key@) == member_of(
                            all.subrange(i as int, members.len() as int),
                            key@,
                        ),
                    decreases members.len() - i,
                {
                    proof {
                        let tail = all.subrange(i as int, members.len() as int);
                        assert(tail[0] == all[i as int]);
                        assert(tail.drop_first() =~= all.subrange(i + 1, members.len() as int));
                    }
                    if same_text(members[i].0.as_str(), key) {
                        return Some(&members[i].1);
                    }
                    i += 1;
                }
                None
            },
            _ => None,
        }
    }

    /// The characters of a text.
    pub fn as_str(&self) -> (out: Option<&str>)
        ensures
            match out {
                Some(s) => self@.text() == Some(s@),
                None => self@.text() is None,
            },
    {
        match self {
            Json::Text(s) => Some(s.as_str()),
            _ => None,
        }
    }

    /// The value of a whole number.
    pub fn as_i64(&self) -> (out: Option<i64>)
        ensures
            match out {
                Some(n) => self@.integer() == Some(n as int),
                None => self@.integer() is None,
            },
    {
        match self {
            Json::Number(Some(n)) => Some(*n),
            _ => None,
        }
    }

    /// The items of an array.
    pub fn as_array(&self) -> (out: Option<&Vec<Json>>)
        ensures
            match out {
                Some(items) => self@.items() == Some(items_view(items@)),
                None => self@.items() is None,
            },
    {
        match self {
            Json::Array(items) => {
                proof {
                    lemma_array_view(*items);
                }
                Some(items)
            },
            _ => None,
        }
    }

    /// The text that an object holds under `key`.
    pub fn get_str(&self, key: &str) -> (out: Option<&str>)
        ensures
            match out {
                Some(s) => self@.text_member(key@) == Some(s@),
                None => self@.text_member(key@) is None,
            },
    {
        match self.get(key) {
            Some(value) => value.as_str(),
            None => None,
        }
    }

    /// The whole number that an object holds under `key`.
    pub fn get_i64(&self, key: &str) -> (out: Option<i64>)
        ensures
            match out {
                Some(n) => self@.integer_member(key@) == Some(n as int),
                None => self@.integer_member(key@) is None,
            },
    {
        match self.get(key) {
            Some(value) => value.as_i64(),
            None => None,
        }
    }

    /// The items that an object holds under `key`.
    pub fn get_array(&self, key: &str) -> (out: Option<&Vec<Json>>)
        ensures
            match out {
                Some(items) => self@.items_member(key@) == Some(items_view(items@)),
                None => self@.items_member(key@) is None,
            },
    {
        match self.get(key) {
            Some(value) => value.as_array(),
            None => None,
        }
    }

    /// The texts of an array of texts.
    pub fn as_text_list(&self) -> (out: Option<Vec<String>>)
        ensures
            match out {
                Some(list) => self@.text_list() == Some(texts(list@)),
                None => self@.text_list() is None,
            },
    {
        match self.as_array() {
            Some(items) => {
                let ghost all = items_view(items@);
                let mut out: Vec<String> = Vec::new();
                let mut i: usize = 0;
                proof {
                    assert(all.take(0) =~= Seq::<JsonValue>::empty());
                    assert(texts(out@) =~= Seq::<Seq<char>>::empty());
                }
                while i < items.len()
                    invariant
                        i <= items.len(),
                        all == items_view(items@),
                        self@.items() == Some(all),
                        texts_of(all.take(i as int)) == Some(texts(out@)),
                    decreases items.len() - i,
                {
                    proof {
                        assert(all.take(i + 1).drop_last() =~= all.take(i as int));
                        assert(all.take(i + 1).last() == items@[i as int]@);
                    }
                    let ghost before = texts(out@);
                    match items[i].as_str() {
                        Some(s) => {
                            out.push(s.to_owned());
                            proof {
                                assert(texts(out@) =~= before.push(s@));
                            }
                        },
                        None => {
                            proof {
                                lemma_texts_of_needs_texts(all, i as int);
                            }
                            return None;
                        },
                    }
                    i += 1;
                }
                proof {
                    assert(all.take(items.len() as int) =~= all);
                }
                Some(out)
            },
            None => None,
        }
    }

    /// The array of texts that an object holds under `key`.
    pub fn get_text_list(&self, key: &str) -> (out: Option<Vec<String>>)
        ensures
            match out {
                Some(list) => self@.text_list_member(key@) == Some(texts(list@)),
                None => self@.text_list_member(key@) is None,
            },
    {
        match self.get(key) {
            Some(value) => value.as_text_list(),
            None => None,
        }
    }

    /// The array of the texts of `list`.
    pub fn of_text_list(list: &Vec<String>) -> (out: Json)
        ensures
            out@ == array_of_texts(texts(list@)),
            out@.text_list() == Some(texts(list@)),
    {
        let mut items: Vec<Json> = Vec::new();
        let mut i: usize = 0;
        while i < list.len()
            invariant
                i <= list.len(),
                items@.len() == i,
                forall|k: int| 0 <= k < i ==> (#[trigger] items@[k])@ == JsonValue::Text(list@[k]@),
            decreases list.len() - i,
        {
            let item = Json::Text(list[i].clone());
            proof {
                assert(item@ == JsonValue::Text(list@[i as int]@));
            }
            items.push(item);
            i += 1;
        }
        proof {
            lemma_array_view(items);
            assert(items_view(items@) =~= array_of_texts(texts(list@))->Array_0);
            lemma_texts_of_array(texts(list@));
        }
        Json::Array(items)
    }
}

impl Json {
    /// The text `text`.
    pub fn text(text: String) -> (out: Json)
        ensures
            out@ == JsonValue::Text(text@),
    {
        Json::Text(text)
    }

    /// The whole number `n`.
    pub fn integer(n: i64) -> (out: Json)
        ensures
            out@ == JsonValue::Number(Some(n as int)),
    {
        Json::Number(Some(n))
    }

    /// The array of `items`.
    pub fn array(items: Vec<Json>) -> (out: Json)
        ensures
            out@ == JsonValue::Array(items_view(items@)),
    {
        proof {
            lemma_array_view(items);
        }
        Json::Array(items)
    }

    /// The object of `members`.
    pub fn object(members: Vec<(String, Json)>) -> (out: Json)
        ensures
            out@ == JsonValue::Object(members_view(members@)),
    {
        proof {
            lemma_object_view(members);
        }
        Json::Object(members)
    }
}

/// Puts the member with the key `key` and the value `value` behind
/// `members`.
pub fn push_member(members: &mut Vec<(String, Json)>, key: &str, value: Json)
    ensures
        members_view(final(members)@) == members_view(old(members)@).push((key@, value@)),
{
    members.push((key.to_owned(), value));
    proof {
        assert(members_view(final(members)@) =~= members_view(old(members)@).push((key@, value@)));
    }
}

/// Puts `item` behind `items`.
pub fn push_item(items: &mut Vec<Json>, item: Json)
    ensures
        items_view(final(items)@) == items_view(old(items)@).push(item@),
{
    items.push(item);
    proof {
        assert(items_view(final(items)@) =~= items_view(old(items)@).push(item@));
    }
}

/// Turns a value of `serde_json` into the library's own, variant by variant;
/// of a number it keeps what `Number::as_i64` gives.
#[verifier::external_body]
fn json_of_value(value: &serde_json::Value) -> Json {
    match value {
        serde_json::Value::Null => Json::Null,
        serde_json::Value::Bool(b) => Json::Bool(*b),
        serde_json::Value::Number(n) => Json::Number(n.as_i64()),
        serde_json::Value::String(s) => Json::Text(s.clone()),
        serde_json::Value::Array(items) => Json::Array(items.iter().map(json_of_value).collect()),
        serde_json::Value::Object(members) => Json::Object(
            members.iter().map(|(k, v)| (k.clone(), json_of_value(v))).collect(),
        ),
    }
}

/// `serde_json::from_str`, read as a `serde_json::Value`: the value that the
/// text holds, and nothing where the text is not well-formed JSON. The same
/// text always gives the same value.
#[verifier::external_body]
pub(crate) fn parse_json(text: &str) -> (out: Option<Json>)
    ensures
        option_json(out) == json_of_text(text@),
{
    match serde_json::from_str::<serde_json::Value>(text) {
        Ok(value) => Some(json_of_value(&value)),
        Err(_) => None,
    }
}

} // verus!
